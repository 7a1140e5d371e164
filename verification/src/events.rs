//! Passing hardware input on to subscribers.

use vstd::prelude::*;

use crate::operation::{event_for, DeviceEvent};
use crate::protocol::InputEvent;

verus! {

/// What came out of the driver's event channel.
#[derive(Clone, Copy, Debug, PartialEq, Eq)]
pub enum Received {
    Event(InputEvent),
    /// The channel dropped reports before they were received.
    Lagged(u64),
    Closed,
}

/// What is passed on, or `None` when the stream is over.
pub open spec fn passed_on(received: Received) -> Option<DeviceEvent> {
    match received {
        Received::Event(event) => Some(event_for(event)),
        Received::Lagged(skipped) => Some(DeviceEvent::Lagged { skipped }),
        Received::Closed => None,
    }
}

/// Decides what to pass on. A gap is passed on as such, and no disconnect is
/// made up.
pub fn bridge(received: Received) -> (r: Option<DeviceEvent>)
    ensures
        r == passed_on(received),
{
    match received {
        Received::Event(event) => Some(DeviceEvent::from(event)),
        Received::Lagged(skipped) => Some(DeviceEvent::Lagged { skipped }),
        Received::Closed => None,
    }
}

/// Nothing is lost silently and nothing is made up: a gap is always visible to
/// the subscriber with its size, and a disconnect never comes from the bridge.
pub proof fn law_gaps_are_visible(received: Received, skipped: u64)
    ensures
        passed_on(received) == Some(DeviceEvent::Lagged { skipped }) <==> received
            == Received::Lagged(skipped),
        passed_on(received) != Some(DeviceEvent::Disconnected),
        passed_on(received) is None <==> received is Closed,
{
}

/// Each input report is passed on as the event of its own sort, with what it
/// carries.
pub proof fn law_reports_keep_their_sort(event: InputEvent, r: Option<DeviceEvent>)
    requires
        call_ensures(bridge, (Received::Event(event),), r),
    ensures
        match event {
            InputEvent::ActiveDpiStageChanged(inner) => r == Some(
                DeviceEvent::ActiveDpiStageChanged(inner),
            ),
            InputEvent::ProfileChanged(inner) => r == Some(DeviceEvent::ProfileChanged(inner)),
            InputEvent::SecondaryProfileChanged(inner) => r == Some(
                DeviceEvent::SecondaryProfileChanged(inner),
            ),
            InputEvent::BatteryChanged(inner) => r == Some(DeviceEvent::BatteryChanged(inner)),
            InputEvent::ConnectionChanged(inner) => r == Some(
                DeviceEvent::ConnectionChanged(inner),
            ),
            InputEvent::DpiIndexChanged(inner) => r == Some(DeviceEvent::DpiIndexChanged(inner)),
            InputEvent::LedModeChanged(inner) => r == Some(DeviceEvent::LedModeChanged(inner)),
            InputEvent::ProfileSync(inner) => r == Some(DeviceEvent::ProfileSync(inner)),
        },
{
}

} // verus!
