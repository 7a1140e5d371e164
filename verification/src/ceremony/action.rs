//! Which step of a ceremony an action asks for.

use vstd::prelude::*;

use crate::device::DeviceEndpoint;
use crate::error::{viewed, ManagerError, ManagerErrorView};
use crate::manager::DeviceManager;
use crate::operation::{IdentityCeremonyAction, IdentityCeremonyKind};

verus! {

/// A step of a ceremony with what it needs.
#[derive(Debug, PartialEq, Eq)]
pub enum CeremonyCall {
    Begin(IdentityCeremonyKind),
    Reconnected(DeviceEndpoint),
    Stamp,
    Adopt,
    Associate(DeviceEndpoint),
    FinalizeMigration(IdentityCeremonyAction),
    Cancel,
}

/// The step that an action asks for.
pub open spec fn call_for(
    action: IdentityCeremonyAction,
    endpoint: Option<DeviceEndpoint>,
) -> Result<CeremonyCall, ManagerErrorView> {
    match action {
        IdentityCeremonyAction::Begin(kind) => Ok(CeremonyCall::Begin(kind)),
        IdentityCeremonyAction::Reconnected => match endpoint {
            Some(endpoint) => Ok(CeremonyCall::Reconnected(endpoint)),
            None => Err(
                ManagerErrorView::InvalidUpdate("Reconnected requires the presented endpoint"@),
            ),
        },
        IdentityCeremonyAction::Capture => match endpoint {
            Some(endpoint) => Ok(CeremonyCall::Reconnected(endpoint)),
            None => Err(
                ManagerErrorView::InvalidUpdate("Capture requires the presented endpoint"@),
            ),
        },
        IdentityCeremonyAction::Stamp => Ok(CeremonyCall::Stamp),
        IdentityCeremonyAction::Adopt => Ok(CeremonyCall::Adopt),
        IdentityCeremonyAction::Associate => match endpoint {
            Some(endpoint) => Ok(CeremonyCall::Associate(endpoint)),
            None => Err(ManagerErrorView::InvalidUpdate("associate requires the BLE endpoint"@)),
        },
        IdentityCeremonyAction::AcceptMigration | IdentityCeremonyAction::SkipMigration => Ok(
            CeremonyCall::FinalizeMigration(action),
        ),
        IdentityCeremonyAction::Cancel => Ok(CeremonyCall::Cancel),
    }
}

impl DeviceManager {
    /// Decides which step an action asks for. `endpoint` is the presented
    /// mouse, or the BLE endpoint of an association; actions that need neither
    /// ignore it.
    pub fn identity_ceremony_action(
        &self,
        action: IdentityCeremonyAction,
        endpoint: Option<DeviceEndpoint>,
    ) -> (r: Result<CeremonyCall, ManagerError>)
        ensures
            viewed(r) == call_for(action, endpoint),
    {
        match (action, endpoint) {
            (IdentityCeremonyAction::Begin(kind), _) => Ok(CeremonyCall::Begin(kind)),
            (
                IdentityCeremonyAction::Reconnected | IdentityCeremonyAction::Capture,
                Some(endpoint),
            ) => Ok(CeremonyCall::Reconnected(endpoint)),
            (IdentityCeremonyAction::Reconnected, None) => Err(
                ManagerError::InvalidUpdate(
                    "Reconnected requires the presented endpoint".to_owned(),
                ),
            ),
            (IdentityCeremonyAction::Capture, None) => Err(
                ManagerError::InvalidUpdate("Capture requires the presented endpoint".to_owned()),
            ),
            (IdentityCeremonyAction::Stamp, _) => Ok(CeremonyCall::Stamp),
            (IdentityCeremonyAction::Adopt, _) => Ok(CeremonyCall::Adopt),
            (IdentityCeremonyAction::Associate, Some(endpoint)) => Ok(
                CeremonyCall::Associate(endpoint),
            ),
            (IdentityCeremonyAction::Associate, None) => Err(
                ManagerError::InvalidUpdate("associate requires the BLE endpoint".to_owned()),
            ),
            (
                IdentityCeremonyAction::AcceptMigration | IdentityCeremonyAction::SkipMigration,
                _,
            ) => Ok(CeremonyCall::FinalizeMigration(action)),
            (IdentityCeremonyAction::Cancel, _) => Ok(CeremonyCall::Cancel),
        }
    }
}

/// Each action asks for its own step, with the endpoint that was presented
/// where it needs one; without one such an action is refused.
pub proof fn law_actions_ask_for_their_step(
    manager: &DeviceManager,
    action: IdentityCeremonyAction,
    endpoint: Option<DeviceEndpoint>,
    r: Result<CeremonyCall, ManagerError>,
)
    requires
        call_ensures(DeviceManager::identity_ceremony_action, (manager, action, endpoint), r),
    ensures
        ({
            let needs = action is Reconnected || action is Capture || action is Associate;
            &&& r is Ok <==> !needs || endpoint is Some
            &&& r is Err ==> (viewed(r) matches Err(error) && error is InvalidUpdate)
            &&& r matches Ok(call) ==> {
                &&& action matches IdentityCeremonyAction::Begin(kind) ==> call
                    == CeremonyCall::Begin(kind)
                &&& action is Reconnected || action is Capture ==> call
                    == CeremonyCall::Reconnected(endpoint->0)
                &&& action is Stamp ==> call is Stamp
                &&& action is Adopt ==> call is Adopt
                &&& action is Associate ==> call == CeremonyCall::Associate(endpoint->0)
                &&& action is AcceptMigration || action is SkipMigration ==> call
                    == CeremonyCall::FinalizeMigration(action)
                &&& action is Cancel ==> call is Cancel
            }
        }),
{
}

} // verus!
