use attack_shark_x3_manager::events::{bridge, Received};
use attack_shark_x3_manager::operation::DeviceEvent;
use attack_shark_x3_manager::protocol::{BatteryEvent, InputEvent};
use tokio::sync::broadcast;
use tokio::sync::broadcast::error::TryRecvError;

fn battery(level: u8) -> InputEvent {
    InputEvent::BatteryChanged(BatteryEvent {
        raw_report: [0x03, 0x10, 0x40, 0x01, level],
        level,
    })
}

/// What a receiver hands to the bridge.
fn received(input: &mut broadcast::Receiver<InputEvent>) -> Option<Received> {
    match input.try_recv() {
        Ok(event) => Some(Received::Event(event)),
        Err(TryRecvError::Lagged(skipped)) => Some(Received::Lagged(skipped)),
        Err(TryRecvError::Closed) => Some(Received::Closed),
        Err(TryRecvError::Empty) => None,
    }
}

#[test]
fn lagged_broadcast_is_surfaced_as_typed_lagged_event() {
    let (input, _first) = broadcast::channel::<InputEvent>(1);
    let _ = input.send(battery(1));
    let _ = input.send(battery(2));
    let mut late = input.subscribe();
    let _ = input.send(battery(3));
    let _ = input.send(battery(4));

    let lag = received(&mut late).expect("something was received");
    let skipped = match lag {
        Received::Lagged(skipped) => skipped,
        other => panic!("expected lagged, got {other:?}"),
    };
    assert!(skipped >= 1);
    assert_eq!(bridge(lag), Some(DeviceEvent::Lagged { skipped }));
}

#[test]
fn broadcast_lag_propagates_skipped_count_through_bridge() {
    let (input, _first) = broadcast::channel::<InputEvent>(2);
    let mut lagging = input.subscribe();
    for level in 0..5 {
        let _ = input.send(battery(level));
    }
    let lag = received(&mut lagging).expect("something was received");
    match lag {
        Received::Lagged(skipped) => {
            assert!(skipped >= 1);
            assert_eq!(bridge(lag), Some(DeviceEvent::Lagged { skipped }));
        }
        other => panic!("should be lagged, got {other:?}"),
    }

    let mut fresh = input.subscribe();
    let _ = input.send(battery(5));
    let event = received(&mut fresh).expect("fresh should receive");
    assert_eq!(event, Received::Event(battery(5)));
    assert!(matches!(
        bridge(event),
        Some(DeviceEvent::BatteryChanged(_))
    ));
    drop(input);
    assert_eq!(received(&mut fresh), Some(Received::Closed));
    assert_eq!(bridge(Received::Closed), None);
}
