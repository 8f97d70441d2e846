use zoocarp::decimal::Decimal;
use zoocarp::lot::{DisposeReason, Lot, LotStatus, OrderTimeInForce, PositionType};
use zoocarp::order::{BrokerStatus, Leg, OrderId, OrderSide, OrderSnapshot, OrderType, Timestamp};
use zoocarp::store::LotStore;

const FIXTURE_CLIENT_ID: &str = "c4390a00-cc88-4979-840c-7feeb08278c5";

fn create_lot(store: &mut LotStore) -> Lot {
    let rowid = Lot::create(
        store,
        "TEST".to_string(),
        Decimal::from_int(11),
        PositionType::Long,
        None,
        Some(Decimal::from_int(101)),
        Some(Decimal::from_int(102)),
        Some(Decimal::from_int(99)),
        Some(OrderTimeInForce::Day),
    );
    let mut lot = Lot::get(store, rowid).unwrap();
    // The broker order in these tests carries the fixture correlation
    // id; give the lot the same id, as the order would have been
    // placed with it.
    lot.client_id = Some(FIXTURE_CLIENT_ID.to_string());
    store.upsert(&lot).unwrap();
    lot
}

fn order_snapshot() -> OrderSnapshot {
    OrderSnapshot {
        id: OrderId { raw: 0x10 },
        client_order_id: FIXTURE_CLIENT_ID.to_string(),
        status: BrokerStatus::Filled,
        filled_quantity: Decimal::from_int(100),
        average_fill_price: Some(Decimal::from_int(101)),
        limit_price: Some(Decimal::from_int(0)),
        symbol: "TEST".to_string(),
        side: OrderSide::Buy,
        filled_at: Some(Timestamp { epoch_micros: 1_700_000_000_000_000 }),
        legs: vec![],
    }
}

fn bracket_order() -> OrderSnapshot {
    let mut order = order_snapshot();
    let limit = Leg {
        id: OrderId { raw: 0x21 },
        kind: OrderType::Limit,
        status: BrokerStatus::New,
        filled_quantity: Decimal::from_int(0),
        average_fill_price: Some(Decimal::from_int(101)),
        filled_at: None,
    };
    let stop = Leg {
        id: OrderId { raw: 0x22 },
        kind: OrderType::Stop,
        status: BrokerStatus::Held,
        filled_quantity: Decimal::from_int(0),
        average_fill_price: Some(Decimal::from_int(101)),
        filled_at: None,
    };
    order.legs = vec![limit, stop];
    order
}

#[test]
fn test_fill_with() {
    let mut store = LotStore::new();
    let order = bracket_order();
    let mut lot = create_lot(&mut store);

    lot.fill_with(&order);
    assert_eq!(lot.filled_avg_price, order.average_fill_price);
    assert_eq!(lot.open_order_id.unwrap(), order.id);
    assert_eq!(lot.limit_price, order.limit_price);
    assert_eq!(lot.cost_basis.unwrap(), Decimal::from_int(10100));
    assert_eq!(lot.target_order_id.unwrap(), order.legs[0].id);
    assert_eq!(lot.stop_order_id.unwrap(), order.legs[1].id);
}

#[test]
fn test_fill_with_when_bracket_order_stopped_out() {
    let stopped_out_at = Timestamp { epoch_micros: 1_700_000_100_000_000 };

    let mut order = bracket_order();
    order.legs[0].status = BrokerStatus::Replaced;
    order.legs[1].status = BrokerStatus::Filled;
    order.legs[1].filled_quantity = Decimal::from_int(100);
    order.legs[1].filled_at = Some(stopped_out_at);

    let mut store = LotStore::new();
    let mut lot = create_lot(&mut store);

    lot.fill_with(&order);
    let stop_leg = &order.legs[1];
    assert_eq!(lot.filled_avg_price, order.average_fill_price);
    assert_eq!(lot.stop_order_id.unwrap(), stop_leg.id);
    assert_eq!(lot.disposed_at.unwrap(), stopped_out_at);
    assert_eq!(
        lot.disposed_fill_price.as_ref(),
        stop_leg.average_fill_price.as_ref()
    );
    assert_eq!(lot.dispose_reason, Some(DisposeReason::StopOut));
    assert_eq!(lot.disposing_order_id, Some(stop_leg.id));
}

#[test]
fn test_fill_with_when_bracket_order_target_hit() {
    let closed_at = Timestamp { epoch_micros: 1_700_000_200_000_000 };

    let mut order = bracket_order();
    order.legs[1].status = BrokerStatus::Replaced;
    order.legs[0].status = BrokerStatus::Filled;
    order.legs[0].filled_quantity = Decimal::from_int(100);
    order.legs[0].filled_at = Some(closed_at);

    let mut store = LotStore::new();
    let mut lot = create_lot(&mut store);

    lot.fill_with(&order);
    let target_leg = &order.legs[0];
    assert_eq!(lot.filled_avg_price, order.average_fill_price);
    assert_eq!(lot.target_order_id.unwrap(), target_leg.id);
    assert_eq!(lot.disposed_at.unwrap(), closed_at);
    assert_eq!(
        lot.disposed_fill_price.as_ref(),
        target_leg.average_fill_price.as_ref()
    );
    assert_eq!(lot.dispose_reason, Some(DisposeReason::Profit));
    assert_eq!(lot.disposing_order_id, Some(target_leg.id));
}

#[test]
fn test_filled_parent_opens_lot() {
    // A freshly created lot merged with a filled parent snapshot
    // carrying both unfilled legs: fill data mirrored, both leg ids
    // captured, status Open, no disposal.
    let mut store = LotStore::new();
    let order = bracket_order();
    let mut lot = create_lot(&mut store);

    assert_eq!(lot.status, Some(LotStatus::Pending));
    lot.fill_with(&order);
    assert_eq!(lot.status, Some(LotStatus::Open));
    assert_eq!(lot.filled_qty, Some(Decimal::from_int(100)));
    assert_eq!(lot.filled_avg_price, Some(Decimal::from_int(101)));
    assert_eq!(lot.cost_basis, Some(Decimal::from_int(10100)));
    assert!(lot.open_order_id.is_some());
    assert!(lot.stop_order_id.is_some());
    assert!(lot.target_order_id.is_some());
    assert_eq!(lot.dispose_reason, None);
    assert_eq!(lot.disposed_at, None);
    assert_eq!(lot.broker_status, Some(BrokerStatus::Filled));
}

#[test]
fn test_create_assigns_identity() {
    // A created lot: row id 1, a 36-character correlation id, a
    // creation time, status Pending, and the requested terms verbatim.
    let mut store = LotStore::new();
    let rowid = Lot::create(
        &mut store,
        "TEST".to_string(),
        Decimal::from_int(11),
        PositionType::Long,
        Some(7),
        Some(Decimal::from_int(101)),
        Some(Decimal::from_int(102)),
        Some(Decimal::from_int(99)),
        Some(OrderTimeInForce::Day),
    );
    assert_eq!(rowid, 1);
    let lot = Lot::get(&store, rowid).unwrap();
    assert_eq!(lot.rowid, Some(1));
    assert_eq!(lot.client_id.as_ref().unwrap().len(), 36);
    assert!(lot.created_at.is_some());
    assert_eq!(lot.sym.as_deref(), Some("TEST"));
    assert_eq!(lot.qty, Some(Decimal::from_int(11)));
    assert_eq!(lot.status, Some(LotStatus::Pending));
    assert_eq!(lot.limit_price, Some(Decimal::from_int(101)));
    assert_eq!(lot.target_price, Some(Decimal::from_int(102)));
    assert_eq!(lot.stop_price, Some(Decimal::from_int(99)));
    assert_eq!(lot.bucket_id, Some(7));
    assert_eq!(lot.cost_basis, None);
    assert_eq!(lot.filled_qty, None);
    assert_eq!(lot.broker_status, None);
}
