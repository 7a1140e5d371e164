//! Access to a device: which endpoint is opened, and whether the attachment
//! has to prove which mouse it is.

use vstd::prelude::*;

use crate::cache::trusted;
use crate::device::{DeviceEndpoint, DeviceId, DeviceIdentity};
use crate::error::{viewed, ManagerError, ManagerErrorView};
use crate::exact::SameValue;
use crate::manager::{not_found, DeviceManager};
use crate::protocol::{is_usb_transport, PhysicalId, WatermarkDecode};
use crate::state::{IdentitySetupJournal, IdentitySetupPhase};
use crate::text::{decimal, decimal_text, hex, hex_text};

verus! {

/// Ordinary operations on the device have to wait for the running ceremony.
pub open spec fn journal_blocks(journal: IdentitySetupJournal, device: Seq<char>) -> bool {
    journal.phase is InitialEnrollment || exists|i: int|
        #![trigger journal.subjects@[i]]
        0 <= i < journal.subjects@.len() && journal.subjects@[i].device_id is Some
            && journal.subjects@[i].device_id->0@ == device
}

/// Tells whether ordinary operations on a device have to wait for the running
/// ceremony: the first enrollment concerns every device, any other ceremony
/// only the mice that it is about.
pub fn journal_blocks_device(journal: &IdentitySetupJournal, device: &DeviceId) -> (r: bool)
    ensures
        r == journal_blocks(*journal, device@),
{
    match journal.phase {
        IdentitySetupPhase::InitialEnrollment => {
            return true;
        },
        _ => {},
    }
    let mut i: usize = 0;
    while i < journal.subjects.len()
        invariant
            i <= journal.subjects@.len(),
            !(journal.phase is InitialEnrollment),
            forall|j: int|
                #![trigger journal.subjects@[j]]
                0 <= j < i ==> !(journal.subjects@[j].device_id is Some
                    && journal.subjects@[j].device_id->0@ == device@),
        decreases journal.subjects@.len() - i,
    {
        if let Some(id) = &journal.subjects[i].device_id {
            if id.same_key(device) {
                assert(journal.subjects@[i as int].device_id is Some);
                return true;
            }
        }
        i = i + 1;
    }
    false
}

/// Which endpoint to open for a device, and the token that the attachment has
/// to carry. BLE cannot show a token and is exempt.
#[derive(Debug, PartialEq, Eq)]
pub struct OpenPlan {
    pub device: DeviceId,
    pub identity: DeviceIdentity,
    pub endpoint: DeviceEndpoint,
    pub required: Option<PhysicalId>,
}

/// The token that the attachment has to carry.
pub open spec fn required_token(identity: DeviceIdentity, endpoint: DeviceEndpoint) -> Option<
    PhysicalId,
> {
    if endpoint.transport.is_usb() {
        identity.physical_id
    } else {
        None
    }
}

/// What is known about the attachment before anything is read.
#[derive(Clone, Copy, Debug, PartialEq, Eq)]
pub enum Authentication {
    /// No token is required.
    NotNeeded,
    /// The watermark was read while this endpoint has been attached.
    Known(WatermarkDecode),
    /// The watermark has to be read.
    MustRead,
}

pub open spec fn mismatch_detail(decode: WatermarkDecode) -> Seq<char> {
    match decode {
        WatermarkDecode::Valid(other) => "watermark "@ + hex(other.token@)
            + " does not match this logical mouse"@,
        WatermarkDecode::Absent =>
            "no watermark present; the physical identity is lost and must be restored"@,
        WatermarkDecode::Malformed =>
            "watermark marker is malformed; the device is not authenticated"@,
        WatermarkDecode::UnsupportedVersion { version } => "unsupported watermark version "@
            + decimal(version as nat),
    }
}

fn describe_mismatch(decode: WatermarkDecode) -> (r: String)
    ensures
        r@ == mismatch_detail(decode),
{
    match decode {
        WatermarkDecode::Valid(other) => {
            let mut text = "watermark ".to_owned();
            let bytes = other.token_bytes();
            let token = hex_text(bytes.as_slice());
            text.append(token.as_str());
            text.append(" does not match this logical mouse");
            text
        },
        WatermarkDecode::Absent =>
            "no watermark present; the physical identity is lost and must be restored".to_owned(),
        WatermarkDecode::Malformed =>
            "watermark marker is malformed; the device is not authenticated".to_owned(),
        WatermarkDecode::UnsupportedVersion { version } => {
            let mut text = "unsupported watermark version ".to_owned();
            let number = decimal_text(version as u64);
            text.append(number.as_str());
            text
        },
    }
}

impl OpenPlan {
    /// The attachment is the mouse that is asked for, as far as it has to show
    /// that.
    pub open spec fn accepts(self, decode: WatermarkDecode) -> bool {
        self.required matches Some(token) ==> decode == WatermarkDecode::Valid(token)
    }

    /// Refuses an attachment that does not carry the mouse's own token.
    pub fn authenticate(&self, decode: WatermarkDecode) -> (r: Result<(), ManagerError>)
        ensures
            viewed(r) == (if self.accepts(decode) {
                Ok(())
            } else {
                Err(
                    ManagerErrorView::AttachmentNotAuthenticated {
                        device: self.device@,
                        endpoint: self.endpoint,
                        detail: mismatch_detail(decode),
                    },
                )
            }),
    {
        if let Some(token) = self.required {
            if !decode.same(&WatermarkDecode::Valid(token)) {
                return Err(
                    ManagerError::AttachmentNotAuthenticated {
                        device: self.device.clone(),
                        endpoint: self.endpoint.clone(),
                        detail: describe_mismatch(decode),
                    },
                );
            }
        }
        Ok(())
    }
}

impl DeviceManager {
    /// Decides which endpoint is opened for a device.
    pub fn plan_open(&self, device: &DeviceId) -> (r: Result<OpenPlan, ManagerError>)
        ensures
            ({
                let state = self.state;
                if state.identity_setup is Some && journal_blocks(
                    state.identity_setup->0,
                    device@,
                ) {
                    viewed(r) == Err::<OpenPlan, ManagerErrorView>(
                        ManagerErrorView::DeviceInvolvedInSetup {
                            device: device@,
                            phase: state.identity_setup->0.phase,
                        },
                    )
                } else if !state.devices@.dom().contains(device@)
                    || state.devices@[device@].identity.chosen_endpoint() is None {
                    viewed(r) == Err::<OpenPlan, ManagerErrorView>(not_found(device@))
                } else {
                    let identity = state.devices@[device@].identity;
                    let endpoint = identity.chosen_endpoint()->0;
                    r == Ok::<OpenPlan, ManagerError>(
                        OpenPlan {
                            device: *device,
                            identity,
                            endpoint,
                            required: required_token(identity, endpoint),
                        },
                    )
                }
            }),
    {
        if let Some(journal) = &self.state.identity_setup {
            if journal_blocks_device(journal, device) {
                return Err(
                    ManagerError::DeviceInvolvedInSetup {
                        device: device.clone(),
                        phase: journal.phase,
                    },
                );
            }
        }
        let identity = match self.state.devices.get(device) {
            Some(state) => state.identity.clone(),
            None => {
                return Err(ManagerError::DeviceNotFound(device.clone()));
            },
        };
        let endpoint = match identity.selected_endpoint() {
            Some(endpoint) => endpoint.clone(),
            None => {
                return Err(ManagerError::DeviceNotFound(device.clone()));
            },
        };
        let required = if is_usb_transport(endpoint.transport) {
            identity.physical_id
        } else {
            None
        };
        Ok(OpenPlan { device: device.clone(), identity, endpoint, required })
    }

    /// Tells what is known about the attachment that was opened.
    pub fn authentication(&self, plan: &OpenPlan) -> (r: Authentication)
        ensures
            r == (if plan.required is None {
                Authentication::NotNeeded
            } else {
                match trusted(self.identity_cache@, plan.endpoint@) {
                    Some(decode) => Authentication::Known(decode),
                    None => Authentication::MustRead,
                }
            }),
    {
        if plan.required.is_none() {
            return Authentication::NotNeeded;
        }
        match self.identity_cache.lookup(&plan.endpoint) {
            Some(decode) => Authentication::Known(decode),
            None => Authentication::MustRead,
        }
    }
}

/// A device with a physical token is opened over USB only where the attachment
/// shows exactly that token.
pub proof fn law_usb_access_is_authenticated(plan: OpenPlan, decode: WatermarkDecode)
    requires
        plan.required == required_token(plan.identity, plan.endpoint),
        plan.accepts(decode),
    ensures
        plan.endpoint.transport.is_usb() ==> (plan.identity.physical_id matches Some(token)
            ==> decode == WatermarkDecode::Valid(token)),
{
}

/// A device is opened exactly when it is stored with an endpoint and no
/// ceremony concerns it: the first enrollment concerns every device, any other
/// ceremony the mice that its subjects are bound to. A blocked device is told
/// so, whether it is stored or not.
pub proof fn law_devices_in_setup_are_not_opened(
    manager: &DeviceManager,
    device: &DeviceId,
    r: Result<OpenPlan, ManagerError>,
)
    requires
        call_ensures(DeviceManager::plan_open, (manager, device), r),
    ensures
        ({
            let blocked = manager.state.identity_setup matches Some(journal) && (
            journal.phase is InitialEnrollment || exists|i: int|
                0 <= i < journal.subjects@.len() && (
                #[trigger] journal.subjects@[i].device_id matches Some(id) && id@ == device@));
            let stored = manager.state.devices@.dom().contains(device@);
            let endpoints = manager.state.devices@[device@].identity.endpoints;
            let reachable = endpoints.wired is Some || endpoints.receiver is Some
                || endpoints.ble is Some;
            &&& r is Ok <==> !blocked && stored && reachable
            &&& blocked ==> (viewed(r) matches Err(
                ManagerErrorView::DeviceInvolvedInSetup { device: named, phase },
            ) && named == device@ && phase == manager.state.identity_setup->0.phase)
            &&& !blocked && !(stored && reachable) ==> viewed(r) == Err::<
                OpenPlan,
                ManagerErrorView,
            >(ManagerErrorView::DeviceNotFound(device@))
        }),
{
    if let Some(journal) = manager.state.identity_setup {
        let named = exists|i: int|
            0 <= i < journal.subjects@.len() && (
            #[trigger] journal.subjects@[i].device_id matches Some(id) && id@ == device@);
        if named {
            let i = choose|i: int|
                0 <= i < journal.subjects@.len() && (
                #[trigger] journal.subjects@[i].device_id matches Some(id) && id@ == device@);
            assert(journal.subjects@[i].device_id is Some);
            assert(journal_blocks(journal, device@));
        }
        if journal_blocks(journal, device@) && !(journal.phase is InitialEnrollment) {
            let i = choose|i: int|
                #![trigger journal.subjects@[i]]
                0 <= i < journal.subjects@.len() && journal.subjects@[i].device_id is Some
                    && journal.subjects@[i].device_id->0@ == device@;
            assert(journal.subjects@[i].device_id is Some);
        }
    }
}

/// A device is opened through the preferred endpoint where that one is stored,
/// else through the first of wired, receiver and BLE that is. Over USB the
/// attachment has to show the token of the device, where it has one; over BLE
/// nothing is required.
pub proof fn law_open_plans(
    manager: &DeviceManager,
    device: &DeviceId,
    r: Result<OpenPlan, ManagerError>,
)
    requires
        call_ensures(DeviceManager::plan_open, (manager, device), r),
    ensures
        r matches Ok(plan) ==> {
            let identity = manager.state.devices@[device@].identity;
            let endpoints = identity.endpoints;
            &&& plan.device == *device
            &&& plan.identity == identity
            &&& match identity.preferred_transport {
                Some(preferred) if endpoints.at(preferred) is Some => endpoints.at(preferred)
                    == Some(plan.endpoint),
                _ => {
                    &&& endpoints.wired is Some ==> endpoints.wired == Some(plan.endpoint)
                    &&& endpoints.wired is None && endpoints.receiver is Some
                        ==> endpoints.receiver == Some(plan.endpoint)
                    &&& endpoints.wired is None && endpoints.receiver is None ==> endpoints.ble
                        == Some(plan.endpoint)
                },
            }
            &&& plan.endpoint.transport is Wired || plan.endpoint.transport is Receiver
                ==> plan.required == identity.physical_id
            &&& plan.endpoint.transport is Ble ==> plan.required is None
        },
{
}

/// An attachment passes exactly when no token is required or when it shows a
/// valid watermark with the required token; what was read of the very same
/// endpoint before need not be read again.
pub proof fn law_authentication_asks_for_the_token(
    manager: &DeviceManager,
    plan: &OpenPlan,
    decode: WatermarkDecode,
    known: Authentication,
    r: Result<(), ManagerError>,
)
    requires
        call_ensures(DeviceManager::authentication, (manager, plan), known),
        call_ensures(OpenPlan::authenticate, (plan, decode), r),
    ensures
        r is Ok <==> plan.required is None || (decode matches WatermarkDecode::Valid(shown)
            && plan.required == Some(shown)),
        r is Err ==> (viewed(r) matches Err(
            ManagerErrorView::AttachmentNotAuthenticated { device, endpoint, detail },
        ) && device == plan.device@ && endpoint == plan.endpoint),
        known is NotNeeded <==> plan.required is None,
        known matches Authentication::Known(reading) ==> ({
            let key = (plan.endpoint.transport, plan.endpoint.locator@);
            manager.identity_cache@.dom().contains(key) && manager.identity_cache@[key] == (
                reading,
                plan.endpoint@,
            )
        }),
        known is MustRead ==> ({
            let key = (plan.endpoint.transport, plan.endpoint.locator@);
            plan.required is Some && (manager.identity_cache@.dom().contains(key)
                ==> manager.identity_cache@[key].1 != plan.endpoint@)
        }),
{
}

} // verus!
