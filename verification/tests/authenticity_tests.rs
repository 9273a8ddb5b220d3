use supply_chain::authenticity::events_chronological;
use supply_chain::entities::{EventType, SupplyChainEvent};

fn event_at(timestamp: u64) -> SupplyChainEvent {
    SupplyChainEvent {
        id: format!("e{}", timestamp),
        product_id: "p".to_string(),
        event_type: EventType::Production,
        location: "site".to_string(),
        timestamp,
        actor: "actor".to_string(),
        details: "details".to_string(),
        coordinates: None,
        temperature: None,
        humidity: None,
    }
}

#[test]
fn empty_and_single_event_sequences_are_chronological() {
    assert!(events_chronological(&vec![]));
    assert!(events_chronological(&vec![event_at(7)]));
}

#[test]
fn non_decreasing_timestamps_are_chronological() {
    let events = vec![event_at(100), event_at(100), event_at(150)];
    assert!(events_chronological(&events));
}

#[test]
fn a_single_regression_is_detected() {
    let events = vec![event_at(100), event_at(90), event_at(150)];
    assert!(!events_chronological(&events));
    let late = vec![event_at(10), event_at(20), event_at(30), event_at(29)];
    assert!(!events_chronological(&late));
}
