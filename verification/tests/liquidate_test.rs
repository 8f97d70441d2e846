use zoocarp::decimal::Decimal;
use zoocarp::liquidate::plan_liquidation;
use zoocarp::lot::{DisposeReason, Lot, LotStatus, OrderTimeInForce, PositionType};
use zoocarp::order::{BrokerStatus, Leg, OrderId, OrderSide, OrderSnapshot, OrderType, Timestamp};
use zoocarp::store::{LedgerError, LotStore};

fn open_lot(store: &mut LotStore) -> Lot {
    let rowid = Lot::create(
        store,
        "TEST".to_string(),
        Decimal::from_int(11),
        PositionType::Long,
        None,
        Some(Decimal::from_int(101)),
        Some(Decimal::from_int(102)),
        Some(Decimal::from_int(99)),
        Some(OrderTimeInForce::Day),
    );
    let mut lot = Lot::get(store, rowid).unwrap();
    lot.status = Some(LotStatus::Open);
    lot.open_order_id = Some(OrderId { raw: 0x50 });
    store.upsert(&lot).unwrap();
    lot
}

fn parent_order() -> OrderSnapshot {
    OrderSnapshot {
        id: OrderId { raw: 0x50 },
        client_order_id: "liq-client".to_string(),
        status: BrokerStatus::Filled,
        filled_quantity: Decimal::from_int(11),
        average_fill_price: Some(Decimal::from_int(101)),
        limit_price: Some(Decimal::from_int(101)),
        symbol: "TEST".to_string(),
        side: OrderSide::Buy,
        filled_at: Some(Timestamp { epoch_micros: 1_700_000_000_000_000 }),
        legs: vec![
            Leg {
                id: OrderId { raw: 0x51 },
                kind: OrderType::Limit,
                status: BrokerStatus::New,
                filled_quantity: Decimal::from_int(0),
                average_fill_price: None,
                filled_at: None,
            },
            Leg {
                id: OrderId { raw: 0x52 },
                kind: OrderType::Stop,
                status: BrokerStatus::Canceled,
                filled_quantity: Decimal::from_int(0),
                average_fill_price: None,
                filled_at: None,
            },
        ],
    }
}

#[test]
fn test_plan_liquidation_of_open_lot() {
    let mut store = LotStore::new();
    let lot = open_lot(&mut store);
    let parent = parent_order();

    let plan = plan_liquidation(
        &lot,
        &parent,
        OrderType::Market,
        None,
        OrderTimeInForce::Day,
    )
    .unwrap();

    // only the still-open leg is canceled; the parent is already
    // terminal (Filled) and is not
    assert_eq!(plan.legs_to_cancel, vec![OrderId { raw: 0x51 }]);
    assert!(!plan.cancel_parent);
    assert_eq!(plan.closing.symbol, "TEST");
    assert_eq!(plan.closing.side, OrderSide::Sell);
    assert_eq!(plan.closing.qty, Decimal::from_int(11));
    assert_eq!(plan.closing.kind, OrderType::Market);
    assert_eq!(plan.closing.stop_price, None);
    assert_eq!(plan.closing.time_in_force, OrderTimeInForce::Day);
}

#[test]
fn test_plan_liquidation_stop_close_keeps_stop_price() {
    let mut store = LotStore::new();
    let mut lot = open_lot(&mut store);
    lot.position_type = Some(PositionType::Short);
    let mut parent = parent_order();
    parent.status = BrokerStatus::PartiallyFilled;

    let plan = plan_liquidation(
        &lot,
        &parent,
        OrderType::Stop,
        Some(Decimal::from_int(98)),
        OrderTimeInForce::UntilCanceled,
    )
    .unwrap();

    assert!(plan.cancel_parent);
    assert_eq!(plan.closing.side, OrderSide::Buy);
    assert_eq!(plan.closing.kind, OrderType::Stop);
    assert_eq!(plan.closing.stop_price, Some(Decimal::from_int(98)));
    assert_eq!(plan.closing.time_in_force, OrderTimeInForce::UntilCanceled);
}

#[test]
fn test_liquidation_rejected_on_non_open_lot() {
    // Liquidation operates on an Open lot only: anything else is
    // rejected synchronously, with no state mutation.
    let mut store = LotStore::new();
    let mut lot = open_lot(&mut store);
    lot.status = Some(LotStatus::Pending);

    let res = plan_liquidation(
        &lot,
        &parent_order(),
        OrderType::Market,
        None,
        OrderTimeInForce::Day,
    );
    assert!(matches!(res, Err(LedgerError::Precondition)));

    let res = lot.liquidate_with(
        &parent_order(),
        Timestamp { epoch_micros: 1_700_000_300_000_000 },
    );
    assert!(matches!(res, Err(LedgerError::Precondition)));
    assert_eq!(lot.status, Some(LotStatus::Pending));
    assert_eq!(lot.dispose_reason, None);
}

#[test]
fn test_liquidate_with_commits_disposal() {
    let mut store = LotStore::new();
    let mut lot = open_lot(&mut store);
    let closing = OrderSnapshot {
        id: OrderId { raw: 0x60 },
        client_order_id: "closing".to_string(),
        status: BrokerStatus::New,
        filled_quantity: Decimal::from_int(0),
        average_fill_price: None,
        limit_price: None,
        symbol: "TEST".to_string(),
        side: OrderSide::Sell,
        filled_at: None,
        legs: vec![],
    };
    let now = Timestamp { epoch_micros: 1_700_000_400_000_000 };

    lot.liquidate_with(&closing, now).unwrap();
    assert_eq!(lot.status, Some(LotStatus::Disposed));
    assert_eq!(lot.disposed_at, Some(now));
    assert_eq!(lot.dispose_reason, Some(DisposeReason::Liquidation));
    assert_eq!(lot.disposing_order_id, Some(OrderId { raw: 0x60 }));
    // the closing order has no fill price yet: left for a later merge
    assert_eq!(lot.disposed_fill_price, None);
}
