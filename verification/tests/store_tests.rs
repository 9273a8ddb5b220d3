use supply_chain::entities::{EventType, ParticipantRole, StoreError};
use supply_chain::store::SupplyChainStore;

fn s(x: &str) -> String {
    x.to_string()
}

// One second is 1_000_000_000 clock nanoseconds; a reading of `t` seconds
// exactly yields the identifier "{t}_0", since t * 1_000_000_000 % 10000 == 0.
fn nanos(seconds: u64) -> u64 {
    seconds * 1_000_000_000
}

fn create_sample_product(store: &mut SupplyChainStore, name: &str, now_nanos: u64) -> String {
    store.create_product(
        s(name),
        s("a description"),
        s("Acme"),
        s("B-1"),
        vec![s("milk"), s("salt")],
        vec![s("organic")],
        now_nanos,
    )
}

#[test]
fn created_product_is_retrievable() {
    let mut store = SupplyChainStore::new();
    let id = store.create_product(
        s("Cheese"),
        s("aged cheese"),
        s("Dairy Co"),
        s("LOT-7"),
        vec![s("milk"), s("cultures")],
        vec![s("organic"), s("kosher")],
        nanos(5),
    );
    assert_eq!(id, "5_0");
    let p = store.get_product(id.clone()).unwrap();
    assert_eq!(p.id, id);
    assert_eq!(p.name, "Cheese");
    assert_eq!(p.description, "aged cheese");
    assert_eq!(p.manufacturer, "Dairy Co");
    assert_eq!(p.batch_number, "LOT-7");
    assert_eq!(p.production_date, 5);
    assert_eq!(p.ingredients, vec![s("milk"), s("cultures")]);
    assert_eq!(p.certifications, vec![s("organic"), s("kosher")]);
}

#[test]
fn fresh_trace_is_empty_with_equal_timestamps() {
    let mut store = SupplyChainStore::new();
    let id = create_sample_product(&mut store, "Yogurt", nanos(42));
    let trace = store.get_supply_chain_trace(id.clone()).unwrap();
    assert_eq!(trace.product_id, id);
    assert_eq!(trace.events.len(), 0);
    assert_eq!(trace.created_at, 42);
    assert_eq!(trace.last_updated, 42);
    assert_eq!(trace.created_at, trace.last_updated);
}

#[test]
fn appends_accumulate_in_arrival_order() {
    let mut store = SupplyChainStore::new();
    let pid = create_sample_product(&mut store, "Butter", nanos(10));
    let e1 = store
        .add_supply_chain_event(
            pid.clone(),
            EventType::Production,
            s("plant"),
            s("worker"),
            s("churned"),
            None,
            None,
            None,
            nanos(100),
        )
        .unwrap();
    let e2 = store
        .add_supply_chain_event(
            pid.clone(),
            EventType::QualityCheck,
            s("lab"),
            s("inspector"),
            s("sampled"),
            None,
            None,
            None,
            nanos(90),
        )
        .unwrap();
    let e3 = store
        .add_supply_chain_event(
            pid.clone(),
            EventType::Shipping,
            s("dock"),
            s("driver"),
            s("loaded"),
            None,
            None,
            None,
            nanos(150),
        )
        .unwrap();
    let trace = store.get_supply_chain_trace(pid.clone()).unwrap();
    assert_eq!(trace.events.len(), 3);
    assert_eq!(trace.events[0].id, e1);
    assert_eq!(trace.events[1].id, e2);
    assert_eq!(trace.events[2].id, e3);
    assert_eq!(trace.events[0].timestamp, 100);
    assert_eq!(trace.events[1].timestamp, 90);
    assert_eq!(trace.events[2].timestamp, 150);
    assert!(trace.events.iter().all(|e| e.product_id == pid));
    assert_eq!(trace.last_updated, 150);
}

#[test]
fn event_fields_are_recorded() {
    let mut store = SupplyChainStore::new();
    let pid = create_sample_product(&mut store, "Fish", nanos(3));
    let eid = store
        .add_supply_chain_event(
            pid.clone(),
            EventType::Customs,
            s("border"),
            s("agent"),
            s("inspected"),
            Some((4631218601951232000, 13860929396736000)),
            Some(4626041242239631360),
            Some(4633641066610819072),
            nanos(77),
        )
        .unwrap();
    assert_eq!(eid, "77_0");
    let trace = store.get_supply_chain_trace(pid).unwrap();
    let e = &trace.events[0];
    assert_eq!(e.id, eid);
    assert_eq!(e.event_type, EventType::Customs);
    assert_eq!(e.location, "border");
    assert_eq!(e.actor, "agent");
    assert_eq!(e.details, "inspected");
    assert_eq!(e.timestamp, 77);
    assert_eq!(e.coordinates, Some((4631218601951232000, 13860929396736000)));
    assert_eq!(e.temperature, Some(4626041242239631360));
    assert_eq!(e.humidity, Some(4633641066610819072));
}

#[test]
fn append_to_unknown_product_rejected_atomically() {
    let mut store = SupplyChainStore::new();
    let pid = create_sample_product(&mut store, "Bread", nanos(8));
    store.register_participant(s("Bakery"), ParticipantRole::Manufacturer, s("Town"), s("pk"), nanos(9));
    let products_before = store.get_all_products().len();
    let participants_before = store.get_participants().len();
    let r = store.add_supply_chain_event(
        s("no-such-id"),
        EventType::Delivery,
        s("shop"),
        s("courier"),
        s("dropped"),
        None,
        None,
        None,
        nanos(50),
    );
    assert_eq!(r, Err(StoreError::ProductNotFound));
    assert_eq!(store.get_all_products().len(), products_before);
    assert_eq!(store.get_participants().len(), participants_before);
    let trace = store.get_supply_chain_trace(pid).unwrap();
    assert_eq!(trace.events.len(), 0);
    assert_eq!(trace.last_updated, 8);
}

#[test]
fn verify_is_false_for_zero_events() {
    let mut store = SupplyChainStore::new();
    let pid = create_sample_product(&mut store, "Tea", nanos(4));
    assert_eq!(store.verify_product_authenticity(pid), Ok(false));
}

#[test]
fn verify_accepts_equal_consecutive_timestamps() {
    let mut store = SupplyChainStore::new();
    let pid = create_sample_product(&mut store, "Coffee", nanos(2));
    for (kind, t) in [
        (EventType::Production, 100),
        (EventType::Packaging, 100),
        (EventType::Shipping, 150),
    ] {
        store
            .add_supply_chain_event(
                pid.clone(),
                kind,
                s("site"),
                s("actor"),
                s("step"),
                None,
                None,
                None,
                nanos(t),
            )
            .unwrap();
    }
    assert_eq!(store.verify_product_authenticity(pid), Ok(true));
}

#[test]
fn verify_rejects_a_timestamp_regression() {
    let mut store = SupplyChainStore::new();
    let pid = create_sample_product(&mut store, "Juice", nanos(2));
    for (kind, t) in [
        (EventType::Production, 100),
        (EventType::QualityCheck, 90),
        (EventType::Shipping, 150),
    ] {
        store
            .add_supply_chain_event(
                pid.clone(),
                kind,
                s("site"),
                s("actor"),
                s("step"),
                None,
                None,
                None,
                nanos(t),
            )
            .unwrap();
    }
    assert_eq!(store.verify_product_authenticity(pid), Ok(false));
}

#[test]
fn verify_unknown_product_is_an_error_not_false() {
    let store = SupplyChainStore::new();
    let r = store.verify_product_authenticity(s("missing"));
    assert_eq!(r, Err(StoreError::ProductNotFound));
    assert_eq!(r.unwrap_err().message(), "Product not found");
}

#[test]
fn get_product_unknown_id_is_not_found() {
    let store = SupplyChainStore::new();
    let r = store.get_product(s("nope"));
    assert!(matches!(r, Err(StoreError::ProductNotFound)));
    assert_eq!(StoreError::ProductNotFound.message(), "Product not found");
    assert_eq!(StoreError::TraceNotFound.message(), "Trace not found");
}

#[test]
fn get_trace_unknown_id_is_none() {
    let store = SupplyChainStore::new();
    assert!(store.get_supply_chain_trace(s("nope")).is_none());
}

#[test]
fn milk_batch_scenario() {
    let mut store = SupplyChainStore::new();
    let pid = store.create_product(
        s("Milk Batch A"),
        s("fresh milk"),
        s("Farm Co"),
        s("A"),
        vec![s("milk")],
        vec![],
        nanos(1),
    );
    store.register_participant(
        s("Farm Co"),
        ParticipantRole::Manufacturer,
        s("Valley"),
        s("key"),
        nanos(1),
    );
    store
        .add_supply_chain_event(
            pid.clone(),
            EventType::Production,
            s("farm"),
            s("Farm Co"),
            s("milked"),
            None,
            None,
            None,
            nanos(100),
        )
        .unwrap();
    store
        .add_supply_chain_event(
            pid.clone(),
            EventType::Shipping,
            s("road"),
            s("Farm Co"),
            s("shipped"),
            None,
            None,
            None,
            nanos(200),
        )
        .unwrap();
    assert_eq!(store.verify_product_authenticity(pid.clone()), Ok(true));
    store
        .add_supply_chain_event(
            pid.clone(),
            EventType::Delivery,
            s("store"),
            s("Farm Co"),
            s("delivered"),
            None,
            None,
            None,
            nanos(150),
        )
        .unwrap();
    assert_eq!(store.verify_product_authenticity(pid), Ok(false));
}

#[test]
fn registered_participant_is_unverified() {
    let mut store = SupplyChainStore::new();
    let id = store.register_participant(
        s("Farm Co"),
        ParticipantRole::Manufacturer,
        s("Valley"),
        s("public-key-bytes"),
        nanos(6),
    );
    assert_eq!(id, "6_0");
    let all = store.get_participants();
    assert_eq!(all.len(), 1);
    assert_eq!(all[0].id, id);
    assert_eq!(all[0].name, "Farm Co");
    assert_eq!(all[0].role, ParticipantRole::Manufacturer);
    assert_eq!(all[0].location, "Valley");
    assert_eq!(all[0].public_key, "public-key-bytes");
    assert!(!all[0].is_verified);
}

#[test]
fn get_all_products_enumerates_everything() {
    let mut store = SupplyChainStore::new();
    assert_eq!(store.get_all_products().len(), 0);
    create_sample_product(&mut store, "One", nanos(1));
    create_sample_product(&mut store, "Two", nanos(2));
    create_sample_product(&mut store, "Three", nanos(3));
    let all = store.get_all_products();
    assert_eq!(all.len(), 3);
    let names: Vec<String> = all.iter().map(|p| p.name.clone()).collect();
    assert!(names.contains(&s("One")));
    assert!(names.contains(&s("Two")));
    assert!(names.contains(&s("Three")));
}

#[test]
fn colliding_identifier_overwrites_like_a_map_insert() {
    let mut store = SupplyChainStore::new();
    let id1 = create_sample_product(&mut store, "First", nanos(9));
    let id2 = create_sample_product(&mut store, "Second", nanos(9));
    assert_eq!(id1, id2);
    assert_eq!(store.get_all_products().len(), 1);
    assert_eq!(store.get_product(id1).unwrap().name, "Second");
}
