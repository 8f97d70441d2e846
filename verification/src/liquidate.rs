//! Manual liquidation: closing an open lot by hand.
//!
//! Liquidation is planned from the lot and the broker's current view of
//! its parent order: cancel every still-open bracket leg, cancel the
//! parent unless the broker already considers it settled, and submit a
//! closing order for the filled quantity on the opposite side. Only
//! once the closing order is accepted is the lot itself marked disposed
//! (`Lot::liquidate_with`); a rejected closing order leaves the lot
//! open and untouched.

use vstd::prelude::*;

use crate::decimal::Decimal;
use crate::lot::{Lot, LotStatus, OrderTimeInForce, PositionType};
use crate::order::{broker_terminal, Leg, OrderId, OrderSide, OrderSnapshot, OrderType};
use crate::store::LedgerError;

verus! {

/// The closing order a liquidation submits.
pub struct ClosingOrderSpec {
    /// Symbol of the position being closed.
    pub symbol: String,
    /// Opposite of the lot's side: sell to close a long, buy to cover
    /// a short.
    pub side: OrderSide,
    /// The outstanding filled quantity to close.
    pub qty: Decimal,
    /// The order kind the caller chose, market by default.
    pub kind: OrderType,
    /// The stop price, for non-market closing orders that carry one.
    pub stop_price: Option<Decimal>,
    /// How long the closing order stays active.
    pub time_in_force: OrderTimeInForce,
}

/// Everything a liquidation must do against the broker, computed up
/// front: the legs to cancel, whether to cancel the parent, and the
/// closing order to submit.
pub struct LiquidationPlan {
    /// Ids of the bracket legs that are still open and must be
    /// canceled first. A failure to cancel one is non-fatal.
    pub legs_to_cancel: Vec<OrderId>,
    /// Whether the parent order must be canceled: only while the
    /// broker does not already consider it settled.
    pub cancel_parent: bool,
    /// The closing order to submit once cancellations are requested.
    pub closing: ClosingOrderSpec,
}

/// The side that closes a position: sell for a long, buy for a short.
pub open spec fn closing_side(pt: Option<PositionType>) -> OrderSide {
    match pt {
        Some(PositionType::Short) => OrderSide::Buy,
        _ => OrderSide::Sell,
    }
}

/// Ids of the still-open legs among the first `k`, in order.
pub open spec fn cancelable_upto(legs: Seq<Leg>, k: int) -> Seq<OrderId>
    decreases k,
{
    if k <= 0 {
        Seq::empty()
    } else if !broker_terminal(legs[k - 1].status) {
        cancelable_upto(legs, k - 1) + seq![legs[k - 1].id]
    } else {
        cancelable_upto(legs, k - 1)
    }
}

/// Plans the liquidation of a lot, given the broker's current snapshot
/// of its parent order and the caller's choice of closing order kind,
/// stop price and time in force. Only an open lot with a recorded
/// opening order can be liquidated; anything else is rejected
/// synchronously, before any broker call is made.
pub fn plan_liquidation(
    lot: &Lot,
    parent: &OrderSnapshot,
    kind: OrderType,
    stop: Option<Decimal>,
    time_in_force: OrderTimeInForce,
) -> (r: Result<LiquidationPlan, LedgerError>)
    ensures
        match r {
            Ok(plan) => {
                &&& lot.status == Some(LotStatus::Open)
                &&& lot.open_order_id is Some
                &&& plan.legs_to_cancel@ == cancelable_upto(parent.legs@, parent.legs@.len() as int)
                &&& plan.cancel_parent == !broker_terminal(parent.status)
                &&& plan.closing.symbol == parent.symbol
                &&& plan.closing.side == closing_side(lot.position_type)
                &&& plan.closing.qty == parent.filled_quantity
                &&& plan.closing.kind == kind
                &&& plan.closing.stop_price == (if kind == OrderType::Market {
                    None::<Decimal>
                } else {
                    stop
                })
                &&& plan.closing.time_in_force == time_in_force
            },
            Err(e) => {
                &&& e == LedgerError::Precondition
                &&& !(lot.status == Some(LotStatus::Open) && lot.open_order_id is Some)
            },
        },
{
    let open = match lot.status {
        Some(LotStatus::Open) => true,
        _ => false,
    };
    if !open || lot.open_order_id.is_none() {
        return Err(LedgerError::Precondition);
    }
    let n = parent.legs.len();
    let mut legs_to_cancel: Vec<OrderId> = Vec::new();
    let mut k: usize = 0;
    while k < n
        invariant
            n == parent.legs@.len(),
            0 <= k <= n,
            legs_to_cancel@ == cancelable_upto(parent.legs@, k as int),
        decreases n - k,
    {
        let leg = &parent.legs[k];
        let terminal = match leg.status {
            crate::order::BrokerStatus::Replaced => true,
            crate::order::BrokerStatus::Filled => true,
            crate::order::BrokerStatus::Canceled => true,
            crate::order::BrokerStatus::Expired => true,
            crate::order::BrokerStatus::Rejected => true,
            _ => false,
        };
        if !terminal {
            legs_to_cancel.push(leg.id);
            proof {
                assert(legs_to_cancel@ =~= cancelable_upto(parent.legs@, k + 1));
            }
        }
        k = k + 1;
    }
    let parent_terminal = match parent.status {
        crate::order::BrokerStatus::Replaced => true,
        crate::order::BrokerStatus::Filled => true,
        crate::order::BrokerStatus::Canceled => true,
        crate::order::BrokerStatus::Expired => true,
        crate::order::BrokerStatus::Rejected => true,
        _ => false,
    };
    let side = match lot.position_type {
        Some(PositionType::Short) => OrderSide::Buy,
        _ => OrderSide::Sell,
    };
    let market = match kind {
        OrderType::Market => true,
        _ => false,
    };
    Ok(LiquidationPlan {
        legs_to_cancel,
        cancel_parent: !parent_terminal,
        closing: ClosingOrderSpec {
            symbol: parent.symbol.clone(),
            side,
            qty: parent.filled_quantity,
            kind,
            stop_price: if market {
                None
            } else {
                stop
            },
            time_in_force,
        },
    })
}

} // verus!
