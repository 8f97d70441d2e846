//! The broker's view of an order, as both reconciliation channels
//! deliver it: an order snapshot with its status, fill data and, for a
//! bracket order, its child legs.

use vstd::prelude::*;

use crate::decimal::{decimal_wf, Decimal};

verus! {

/// A broker-side order id, the 128 bits of the broker's UUID.
#[derive(Clone, Copy, Debug, PartialEq, Eq, Structural)]
pub struct OrderId {
    pub raw: u128,
}

/// A point in time, as microseconds since the Unix epoch.
#[derive(Clone, Copy, Debug, PartialEq, Eq, Structural)]
pub struct Timestamp {
    pub epoch_micros: i64,
}

/// An order status as the broker reports it.
#[derive(Clone, Copy, Debug, PartialEq, Eq, Structural)]
pub enum BrokerStatus {
    /// Received and routed for execution.
    New,
    /// The order has been replaced.
    Replaced,
    /// Partially filled.
    PartiallyFilled,
    /// Completely filled; no further updates will occur.
    Filled,
    /// Done executing for the day.
    DoneForDay,
    /// Canceled; no further updates will occur.
    Canceled,
    /// Expired; no further updates will occur.
    Expired,
    /// Received by the broker but not yet routed.
    Accepted,
    /// Routed but not yet accepted for execution.
    PendingNew,
    /// Received by the exchange and being evaluated for pricing.
    AcceptedForBidding,
    /// Waiting to be canceled.
    PendingCancel,
    /// Awaiting replacement.
    PendingReplace,
    /// Stopped: a trade is guaranteed but has not yet occurred.
    Stopped,
    /// Rejected; no further updates will occur.
    Rejected,
    /// Suspended and not eligible for trading.
    Suspended,
    /// Completed for the day, settlement calculations pending.
    Calculated,
    /// Held, as for bracket legs whose primary order has not filled.
    Held,
    /// A status this ledger does not recognize.
    Unknown,
}

/// The kind of an order or of a bracket leg.
#[derive(Clone, Copy, Debug, PartialEq, Eq, Structural)]
pub enum OrderType {
    Market,
    Limit,
    Stop,
    StopLimit,
    TrailingStop,
}

/// The side an order is on.
#[derive(Clone, Copy, Debug, PartialEq, Eq, Structural)]
pub enum OrderSide {
    Buy,
    Sell,
}

/// True of the statuses that report an execution: a full or partial fill.
pub open spec fn denotes_fill(s: BrokerStatus) -> bool {
    s == BrokerStatus::Filled || s == BrokerStatus::PartiallyFilled
}

/// True of the statuses after which the broker sends no further updates
/// for the order.
pub open spec fn broker_terminal(s: BrokerStatus) -> bool {
    ||| s == BrokerStatus::Replaced
    ||| s == BrokerStatus::Filled
    ||| s == BrokerStatus::Canceled
    ||| s == BrokerStatus::Expired
    ||| s == BrokerStatus::Rejected
}

/// A child order of a bracket order: the stop-loss or take-profit leg.
#[derive(Clone, Copy, Debug, PartialEq, Eq, Structural)]
pub struct Leg {
    /// The leg's own broker-side order id.
    pub id: OrderId,
    /// Stop for the stop-loss leg, Limit for the take-profit leg.
    pub kind: OrderType,
    /// The leg's own status.
    pub status: BrokerStatus,
    /// Quantity filled on this leg so far.
    pub filled_quantity: Decimal,
    /// Average fill price of this leg, when any of it has filled.
    pub average_fill_price: Option<Decimal>,
    /// When the leg filled, if it has.
    pub filled_at: Option<Timestamp>,
}

/// The broker's report of one order: what the poll returns and what a
/// stream event carries.
pub struct OrderSnapshot {
    /// The broker-side order id.
    pub id: OrderId,
    /// The client-generated correlation id the order was placed with.
    pub client_order_id: String,
    /// The order's status.
    pub status: BrokerStatus,
    /// Quantity filled so far.
    pub filled_quantity: Decimal,
    /// Average fill price, when any quantity has filled.
    pub average_fill_price: Option<Decimal>,
    /// The order's limit price, if it has one.
    pub limit_price: Option<Decimal>,
    /// Symbol the order trades.
    pub symbol: String,
    /// The side the order is on.
    pub side: OrderSide,
    /// When the order filled, if it has.
    pub filled_at: Option<Timestamp>,
    /// Child legs, present on bracket orders: at most one Stop leg and
    /// one Limit leg are meaningful.
    pub legs: Vec<Leg>,
}

/// A well-formed leg: its numeric fields are in range.
pub open spec fn leg_wf(l: Leg) -> bool {
    &&& decimal_wf(l.filled_quantity)
    &&& (l.average_fill_price is Some ==> decimal_wf(l.average_fill_price->0))
}

/// A well-formed snapshot: every numeric field, of the order and of
/// each leg, is in range.
pub open spec fn snapshot_wf(o: OrderSnapshot) -> bool {
    &&& decimal_wf(o.filled_quantity)
    &&& (o.average_fill_price is Some ==> decimal_wf(o.average_fill_price->0))
    &&& (o.limit_price is Some ==> decimal_wf(o.limit_price->0))
    &&& forall|i: int| 0 <= i < o.legs@.len() ==> leg_wf(#[trigger] o.legs@[i])
}

/// The first leg of the given kind at or after index `i`, if any.
pub open spec fn first_leg_from(legs: Seq<Leg>, kind: OrderType, i: int) -> Option<Leg>
    decreases legs.len() - i,
{
    if i < 0 || i >= legs.len() {
        None
    } else if legs[i].kind == kind {
        Some(legs[i])
    } else {
        first_leg_from(legs, kind, i + 1)
    }
}

/// The first leg of the given kind, if any: the deterministic
/// lookup-by-kind over the (small) leg list.
pub open spec fn first_leg(legs: Seq<Leg>, kind: OrderType) -> Option<Leg> {
    first_leg_from(legs, kind, 0)
}

/// Finds the first leg of the given kind, by a front-to-back scan.
pub fn find_leg(legs: &Vec<Leg>, kind: OrderType) -> (r: Option<Leg>)
    ensures
        r == first_leg(legs@, kind),
{
    let n = legs.len();
    let mut i: usize = 0;
    while i < n
        invariant
            n == legs@.len(),
            0 <= i <= n,
            first_leg_from(legs@, kind, 0) == first_leg_from(legs@, kind, i as int),
        decreases n - i,
    {
        if legs[i].kind == kind {
            return Some(legs[i]);
        }
        i = i + 1;
    }
    None
}

} // verus!
