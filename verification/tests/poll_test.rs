use zoocarp::decimal::Decimal;
use zoocarp::lot::{Lot, LotStatus, OrderTimeInForce, PositionType};
use zoocarp::order::{BrokerStatus, OrderId, OrderSide, OrderSnapshot, Timestamp};
use zoocarp::store::LotStore;
use zoocarp::sync::{apply_poll_result, startup_sync, BrokerLookup, PollOutcome};

fn seeded_lot(store: &mut LotStore, client_id: &str) -> i64 {
    let rowid = Lot::create(
        store,
        "TEST".to_string(),
        Decimal::from_int(11),
        PositionType::Long,
        None,
        Some(Decimal::from_int(101)),
        Some(Decimal::from_int(102)),
        Some(Decimal::from_int(99)),
        Some(OrderTimeInForce::Day),
    );
    let mut lot = Lot::get(store, rowid).unwrap();
    lot.client_id = Some(client_id.to_string());
    store.upsert(&lot).unwrap();
    rowid
}

fn broker_order(client_id: &str) -> OrderSnapshot {
    OrderSnapshot {
        id: OrderId { raw: 0x41 },
        client_order_id: client_id.to_string(),
        status: BrokerStatus::PartiallyFilled,
        filled_quantity: Decimal::from_int(5),
        average_fill_price: Some(Decimal::new(10150, 100)),
        limit_price: Some(Decimal::from_int(101)),
        symbol: "TEST".to_string(),
        side: OrderSide::Buy,
        filled_at: Some(Timestamp { epoch_micros: 1_700_000_000_000_000 }),
        legs: vec![],
    }
}

#[test]
fn test_poll_not_found_forces_canceled() {
    // The broker no longer knows the order: the lot is forced to
    // Canceled and no other field is mutated.
    let mut store = LotStore::new();
    let rowid = seeded_lot(&mut store, "aaa");
    let before = Lot::get(&store, rowid).unwrap();

    let res = apply_poll_result(&mut store, rowid, &BrokerLookup::NotFound);
    assert_eq!(res, PollOutcome::ForcedCanceled);

    let after = Lot::get(&store, rowid).unwrap();
    assert_eq!(after.status, Some(LotStatus::Canceled));
    assert_eq!(after.client_id, before.client_id);
    assert_eq!(after.sym, before.sym);
    assert_eq!(after.qty, before.qty);
    assert_eq!(after.limit_price, before.limit_price);
    assert_eq!(after.filled_qty, before.filled_qty);
    assert_eq!(after.filled_avg_price, before.filled_avg_price);
    assert_eq!(after.cost_basis, before.cost_basis);
    assert_eq!(after.broker_status, before.broker_status);
    assert_eq!(after.disposed_at, before.disposed_at);
    assert_eq!(after.dispose_reason, before.dispose_reason);
    assert_eq!(after.open_order_id, before.open_order_id);
}

#[test]
fn test_poll_transient_failure_leaves_lot_untouched() {
    let mut store = LotStore::new();
    let rowid = seeded_lot(&mut store, "aaa");

    let res = apply_poll_result(&mut store, rowid, &BrokerLookup::Failed);
    assert_eq!(res, PollOutcome::Skipped);
    let after = Lot::get(&store, rowid).unwrap();
    assert_eq!(after.status, Some(LotStatus::Pending));
}

#[test]
fn test_poll_found_merges_snapshot() {
    let mut store = LotStore::new();
    let rowid = seeded_lot(&mut store, "aaa");

    let res = apply_poll_result(
        &mut store,
        rowid,
        &BrokerLookup::Found(broker_order("aaa")),
    );
    assert_eq!(res, PollOutcome::Applied);
    let after = Lot::get(&store, rowid).unwrap();
    assert_eq!(after.status, Some(LotStatus::Open));
    assert_eq!(after.filled_qty, Some(Decimal::from_int(5)));
    assert_eq!(after.filled_avg_price, Some(Decimal::new(10150, 100)));
    assert_eq!(after.cost_basis, Some(Decimal::new(50750, 100)));
    assert_eq!(after.broker_status, Some(BrokerStatus::PartiallyFilled));
    assert_eq!(after.open_order_id, Some(OrderId { raw: 0x41 }));
}

#[test]
fn test_poll_mismatched_snapshot_changes_nothing() {
    // A snapshot whose correlation id is not the lot's own is refused.
    let mut store = LotStore::new();
    let rowid = seeded_lot(&mut store, "aaa");

    let res = apply_poll_result(
        &mut store,
        rowid,
        &BrokerLookup::Found(broker_order("bbb")),
    );
    assert_eq!(res, PollOutcome::Mismatched);
    let after = Lot::get(&store, rowid).unwrap();
    assert_eq!(after.status, Some(LotStatus::Pending));
    assert_eq!(after.filled_qty, None);
}

#[test]
fn test_poll_unknown_rowid() {
    let mut store = LotStore::new();
    let res = apply_poll_result(&mut store, 5, &BrokerLookup::NotFound);
    assert_eq!(res, PollOutcome::NoSuchLot);
    assert_eq!(store.len(), 0);
}

#[test]
fn test_startup_sync_isolates_failures() {
    // One pass over three lots: a found order merges, a vanished order
    // cancels, a transient failure leaves its lot for the next pass —
    // and neither failure keeps the others from being processed.
    let mut store = LotStore::new();
    let r1 = seeded_lot(&mut store, "aaa");
    let r2 = seeded_lot(&mut store, "bbb");
    let r3 = seeded_lot(&mut store, "ccc");

    let targets = store.list_non_terminal();
    assert_eq!(targets.len(), 3);

    let results = vec![
        (r1, BrokerLookup::Found(broker_order("aaa"))),
        (r2, BrokerLookup::NotFound),
        (r3, BrokerLookup::Failed),
    ];
    startup_sync(&mut store, &results);

    assert_eq!(Lot::get(&store, r1).unwrap().status, Some(LotStatus::Open));
    assert_eq!(
        Lot::get(&store, r2).unwrap().status,
        Some(LotStatus::Canceled)
    );
    assert_eq!(
        Lot::get(&store, r3).unwrap().status,
        Some(LotStatus::Pending)
    );

    // A later pass no longer targets the canceled lot.
    let targets = store.list_non_terminal();
    assert_eq!(targets.len(), 2);
}
