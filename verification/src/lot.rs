//! The lot: one ledger record per intended position, and the merge that
//! folds a broker order snapshot into it.
//!
//! A lot is created `Pending` when an order is submitted, and from then
//! on is mutated only by merging broker snapshots (`fill_with`) or by a
//! manual liquidation (`liquidate_with`). The merge is idempotent,
//! never regresses a terminal status, and keeps the cost basis in step
//! with the recorded fill price and quantity.

use vstd::prelude::*;

use crate::decimal::{decimal_wf, spec_mul, Decimal};
use crate::order::{
    denotes_fill, first_leg, find_leg, snapshot_wf, BrokerStatus, Leg, OrderId, OrderSnapshot,
    OrderType, Timestamp,
};
use crate::store::{store_wf, LedgerError, LotStore, MAX_ROWID};

verus! {

/// The status a lot can have.
#[derive(Clone, Copy, Debug, PartialEq, Eq, Structural)]
pub enum LotStatus {
    /// The order is awaiting fulfillment or partial fulfillment.
    Pending,
    /// The order is either awaiting execution or filled and is a held
    /// position.
    Open,
    /// The lot was sold or bought to cover and is final.
    Disposed,
    /// The order expired or was canceled before it was filled.
    Canceled,
    /// An unrecognized broker status was reported; the lot needs manual
    /// follow-up and is left as it is by further merges.
    Other,
}

/// Why a lot was disposed of.
#[derive(Clone, Copy, Debug, PartialEq, Eq, Structural)]
pub enum DisposeReason {
    /// The lot was manually disposed of.
    Liquidation,
    /// The stop was hit.
    StopOut,
    /// The take profit was hit.
    Profit,
}

/// Whether the position is long or short.
#[derive(Clone, Copy, Debug, PartialEq, Eq, Structural)]
pub enum PositionType {
    Long,
    Short,
}

/// How long an order remains active.
#[derive(Clone, Copy, Debug, PartialEq, Eq, Structural)]
pub enum OrderTimeInForce {
    /// Good for the day; canceled automatically at the end of regular
    /// trading hours if unfilled.
    Day,
    /// Good until canceled.
    UntilCanceled,
}

/// The ledger record for one intended position.
pub struct Lot {
    /// Row id assigned by the store.
    pub rowid: Option<i64>,
    /// Client-generated correlation id, set once at creation and used
    /// to match broker orders across both reconciliation channels.
    pub client_id: Option<String>,
    /// When the original order was submitted.
    pub created_at: Option<Timestamp>,
    /// Symbol of the position.
    pub sym: Option<String>,
    /// Number of shares requested.
    pub qty: Option<Decimal>,
    /// Long or short.
    pub position_type: Option<PositionType>,
    /// Whether the lot is new, held, or has been disposed of.
    pub status: Option<LotStatus>,
    /// How long the order should remain active.
    pub time_in_force: Option<OrderTimeInForce>,
    /// Quantity filled so far, as last reported by the broker.
    pub filled_qty: Option<Decimal>,
    /// Average fill price per unit, as last reported by the broker.
    pub filled_avg_price: Option<Decimal>,
    /// Limit price, as last reported by the broker.
    pub limit_price: Option<Decimal>,
    /// Take-profit price as entered by the user.
    pub target_price: Option<Decimal>,
    /// Stop-loss price as entered by the user.
    pub stop_price: Option<Decimal>,
    /// Total cost basis: fill price times filled quantity, unset while
    /// no fill price is known.
    pub cost_basis: Option<Decimal>,
    /// When the position was closed.
    pub disposed_at: Option<Timestamp>,
    /// Average price at which the position was actually closed.
    pub disposed_fill_price: Option<Decimal>,
    /// Why the position was closed.
    pub dispose_reason: Option<DisposeReason>,
    /// The broker's last reported status, mirrored verbatim.
    pub broker_status: Option<BrokerStatus>,
    /// Id of the opening order in the broker's system.
    pub open_order_id: Option<OrderId>,
    /// Id of the order that closed the position.
    pub disposing_order_id: Option<OrderId>,
    /// Id of the bracket's stop-loss leg, captured once observed.
    pub stop_order_id: Option<OrderId>,
    /// Id of the bracket's take-profit leg, captured once observed.
    pub target_order_id: Option<OrderId>,
    /// Foreign reference to the grouping entity; opaque to this ledger.
    pub bucket_id: Option<i64>,
}

impl Clone for Lot {
    fn clone(&self) -> (r: Self)
        ensures
            r == *self,
    {
        Lot {
            rowid: self.rowid,
            client_id: match &self.client_id {
                Some(s) => Some(s.clone()),
                None => None,
            },
            created_at: self.created_at,
            sym: match &self.sym {
                Some(s) => Some(s.clone()),
                None => None,
            },
            qty: self.qty,
            position_type: self.position_type,
            status: self.status,
            time_in_force: self.time_in_force,
            filled_qty: self.filled_qty,
            filled_avg_price: self.filled_avg_price,
            limit_price: self.limit_price,
            target_price: self.target_price,
            stop_price: self.stop_price,
            cost_basis: self.cost_basis,
            disposed_at: self.disposed_at,
            disposed_fill_price: self.disposed_fill_price,
            dispose_reason: self.dispose_reason,
            broker_status: self.broker_status,
            open_order_id: self.open_order_id,
            disposing_order_id: self.disposing_order_id,
            stop_order_id: self.stop_order_id,
            target_order_id: self.target_order_id,
            bucket_id: self.bucket_id,
        }
    }
}

/// The pure state machine: the local status a broker status maps to.
/// Total over every broker status: anything unrecognized maps to
/// `Other`, never to an error.
pub open spec fn status_for_spec(b: BrokerStatus) -> LotStatus {
    match b {
        BrokerStatus::New => LotStatus::Pending,
        BrokerStatus::PendingNew => LotStatus::Pending,
        BrokerStatus::Accepted => LotStatus::Pending,
        BrokerStatus::PartiallyFilled => LotStatus::Open,
        BrokerStatus::Filled => LotStatus::Open,
        BrokerStatus::Canceled => LotStatus::Canceled,
        BrokerStatus::Rejected => LotStatus::Canceled,
        BrokerStatus::Expired => LotStatus::Canceled,
        _ => LotStatus::Other,
    }
}

/// The pure state machine, computed: total over every broker status
/// and deterministic — the result depends on the broker status alone.
pub fn status_for(status: &BrokerStatus) -> (r: LotStatus)
    ensures
        r == status_for_spec(*status),
{
    match status {
        BrokerStatus::New => LotStatus::Pending,
        BrokerStatus::PendingNew => LotStatus::Pending,
        BrokerStatus::Accepted => LotStatus::Pending,
        BrokerStatus::PartiallyFilled => LotStatus::Open,
        BrokerStatus::Filled => LotStatus::Open,
        BrokerStatus::Canceled => LotStatus::Canceled,
        BrokerStatus::Rejected => LotStatus::Canceled,
        BrokerStatus::Expired => LotStatus::Canceled,
        _ => LotStatus::Other,
    }
}

/// True of the statuses a lot never leaves through a merge.
pub open spec fn is_terminal(s: LotStatus) -> bool {
    s == LotStatus::Disposed || s == LotStatus::Canceled
}

/// True when the lot's recorded status is terminal.
pub open spec fn lot_terminal(s: Option<LotStatus>) -> bool {
    s is Some && is_terminal(s->0)
}

/// Rank of a status under the order Pending < Open < Disposed and
/// Canceled; the side-branch Other sits beside Open.
pub open spec fn status_rank(s: LotStatus) -> int {
    match s {
        LotStatus::Pending => 0,
        LotStatus::Open => 1,
        LotStatus::Other => 1,
        LotStatus::Disposed => 2,
        LotStatus::Canceled => 2,
    }
}

/// The status a merge leaves: snapshots are ranked by broker status,
/// not by delivery time, and the recorded status never moves down.
/// A terminal status is kept as it is; `Other` is not auto-exited; and
/// an unrecognized broker status sends a non-terminal lot to `Other`.
pub open spec fn next_status_spec(cur: Option<LotStatus>, b: BrokerStatus) -> LotStatus {
    let new = status_for_spec(b);
    match cur {
        None => new,
        Some(c) => {
            if is_terminal(c) {
                c
            } else if c == LotStatus::Other {
                LotStatus::Other
            } else if new == LotStatus::Other {
                LotStatus::Other
            } else if status_rank(new) >= status_rank(c) {
                new
            } else {
                c
            }
        },
    }
}

/// The cost basis the latest fill data yields: fill price times filled
/// quantity when a price is present, unset otherwise.
pub open spec fn basis_of(price: Option<Decimal>, qty: Decimal) -> Option<Decimal> {
    match price {
        Some(p) => Some(spec_mul(p, qty)),
        None => None,
    }
}

/// True when a snapshot's fill data is taken over: the snapshot reports
/// a fill and the lot has not already reached a terminal status (a
/// late-delivered fill never regresses a settled record).
pub open spec fn fill_applies(cur: Option<LotStatus>, b: BrokerStatus) -> bool {
    denotes_fill(b) && !lot_terminal(cur)
}

/// A well-formed lot: it has a status, and its cost basis is exactly
/// what its recorded fill price and filled quantity yield — never
/// stale relative to those two fields.
pub open spec fn lot_wf(lot: Lot) -> bool {
    &&& lot.status is Some
    &&& (lot.filled_avg_price is Some ==> lot.filled_qty is Some)
    &&& match (lot.filled_avg_price, lot.filled_qty) {
        (Some(p), Some(q)) => lot.cost_basis == Some(spec_mul(p, q)),
        _ => lot.cost_basis is None,
    }
}

/// The leg-independent part of a merge: mirror the broker status and
/// limit price, step the status machine, capture the opening order id
/// on first observation, and take over fill data when it applies.
pub open spec fn merged_core(lot: Lot, o: OrderSnapshot) -> Lot {
    let fill = fill_applies(lot.status, o.status);
    Lot {
        broker_status: Some(o.status),
        status: Some(next_status_spec(lot.status, o.status)),
        limit_price: o.limit_price,
        open_order_id: if lot.open_order_id is Some {
            lot.open_order_id
        } else {
            Some(o.id)
        },
        filled_qty: if fill {
            Some(o.filled_quantity)
        } else {
            lot.filled_qty
        },
        filled_avg_price: if fill {
            o.average_fill_price
        } else {
            lot.filled_avg_price
        },
        cost_basis: if fill {
            basis_of(o.average_fill_price, o.filled_quantity)
        } else {
            lot.cost_basis
        },
        ..lot
    }
}

/// Captures a leg's id on the lot, on first observation only: the stop
/// leg's id in `stop_order_id`, the take-profit leg's id in
/// `target_order_id`; never cleared or overwritten.
pub open spec fn record_leg_id(lot: Lot, leg: Leg, kind: OrderType) -> Lot {
    match kind {
        OrderType::Stop => if lot.stop_order_id is Some {
            lot
        } else {
            Lot { stop_order_id: Some(leg.id), ..lot }
        },
        OrderType::Limit => if lot.target_order_id is Some {
            lot
        } else {
            Lot { target_order_id: Some(leg.id), ..lot }
        },
        _ => lot,
    }
}

/// The disposal a filled leg causes: the four disposal fields are set
/// together, from the leg, and the status becomes Disposed.
pub open spec fn dispose_with_leg(lot: Lot, leg: Leg, reason: DisposeReason) -> Lot {
    Lot {
        status: Some(LotStatus::Disposed),
        disposed_at: leg.filled_at,
        disposed_fill_price: leg.average_fill_price,
        dispose_reason: Some(reason),
        disposing_order_id: Some(leg.id),
        ..lot
    }
}

/// What one disposal check leaves: find the single leg of the given
/// kind; capture its id; and if that leg itself reports a fill and the
/// lot is not already settled (first writer wins — a lot disposed by
/// one leg is never overwritten by the other), dispose the lot.
pub open spec fn detect_disposal_spec(
    lot: Lot,
    legs: Seq<Leg>,
    kind: OrderType,
    reason: DisposeReason,
) -> Lot {
    match first_leg(legs, kind) {
        None => lot,
        Some(leg) => {
            let l1 = record_leg_id(lot, leg, kind);
            if denotes_fill(leg.status) && !lot_terminal(lot.status) {
                dispose_with_leg(l1, leg, reason)
            } else {
                l1
            }
        },
    }
}

/// The full merge of one broker snapshot into one lot: the core merge,
/// then — when the snapshot carries legs — the stop-leg check and the
/// take-profit-leg check, each independent of the other.
pub open spec fn apply_spec(lot: Lot, o: OrderSnapshot) -> Lot {
    let m = merged_core(lot, o);
    if o.legs@.len() > 0 {
        detect_disposal_spec(
            detect_disposal_spec(m, o.legs@, OrderType::Stop, DisposeReason::StopOut),
            o.legs@,
            OrderType::Limit,
            DisposeReason::Profit,
        )
    } else {
        m
    }
}

/// What a manual liquidation commit leaves once the closing order is
/// accepted: the disposal fields are set from the closing order, the
/// disposal time is the given moment, and the status becomes Disposed.
pub open spec fn liquidate_spec(lot: Lot, o: OrderSnapshot, now: Timestamp) -> Lot {
    Lot {
        status: Some(LotStatus::Disposed),
        disposed_at: Some(now),
        disposed_fill_price: o.average_fill_price,
        dispose_reason: Some(DisposeReason::Liquidation),
        disposing_order_id: Some(o.id),
        ..lot
    }
}

impl Lot {
    /// Recomputes the cost basis from a filled quantity and an optional
    /// fill price: their exact product when the price is present,
    /// unset otherwise.
    pub fn set_cost_basis(&mut self, qty: &Decimal, fill_price: &Option<Decimal>)
        requires
            decimal_wf(*qty),
            fill_price is Some ==> decimal_wf(fill_price->0),
        ensures
            *final(self) == (Lot { cost_basis: basis_of(*fill_price, *qty), ..*old(self) }),
    {
        self.cost_basis = match fill_price {
            Some(price) => Some(price.times(*qty)),
            None => None,
        };
    }

    /// Mirrors a reported broker status onto the lot and steps the
    /// status machine, without ever downgrading a terminal status or
    /// auto-exiting `Other`.
    pub fn set_status_from(&mut self, status: &BrokerStatus)
        ensures
            *final(self) == (Lot {
                broker_status: Some(*status),
                status: Some(next_status_spec(old(self).status, *status)),
                ..*old(self)
            }),
    {
        self.broker_status = Some(*status);
        let new = status_for(status);
        self.status = match self.status {
            None => Some(new),
            Some(c) => {
                if c == LotStatus::Disposed || c == LotStatus::Canceled {
                    Some(c)
                } else if c == LotStatus::Other || new == LotStatus::Other {
                    Some(LotStatus::Other)
                } else if rank_of(new) >= rank_of(c) {
                    Some(new)
                } else {
                    Some(c)
                }
            },
        };
    }

    /// One disposal check: finds the single leg of the given kind in
    /// the snapshot, captures its id on the lot, and — if that leg
    /// reports a fill and the lot is not already settled — records the
    /// disposal it caused.
    pub fn detect_disposal(
        &mut self,
        order: &OrderSnapshot,
        order_type: OrderType,
        reason: DisposeReason,
    )
        ensures
            *final(self) == detect_disposal_spec(*old(self), order.legs@, order_type, reason),
    {
        let leg_opt = find_leg(&order.legs, order_type);
        match leg_opt {
            None => {},
            Some(leg) => {
                let was_terminal = match self.status {
                    Some(LotStatus::Disposed) => true,
                    Some(LotStatus::Canceled) => true,
                    _ => false,
                };
                match order_type {
                    OrderType::Stop => {
                        if self.stop_order_id.is_none() {
                            self.stop_order_id = Some(leg.id);
                        }
                    },
                    OrderType::Limit => {
                        if self.target_order_id.is_none() {
                            self.target_order_id = Some(leg.id);
                        }
                    },
                    _ => {},
                }
                let leg_filled = match leg.status {
                    BrokerStatus::Filled => true,
                    BrokerStatus::PartiallyFilled => true,
                    _ => false,
                };
                if leg_filled && !was_terminal {
                    self.status = Some(LotStatus::Disposed);
                    self.disposed_at = leg.filled_at;
                    self.disposed_fill_price = leg.average_fill_price;
                    self.dispose_reason = Some(reason);
                    self.disposing_order_id = Some(leg.id);
                }
            },
        }
    }

    /// Merges one broker order snapshot into the lot: the single
    /// idempotent mutation primitive both reconciliation paths call.
    /// The snapshot must carry the lot's own correlation id; resolving
    /// the right lot is the caller's responsibility.
    pub fn fill_with(&mut self, order: &OrderSnapshot)
        requires
            snapshot_wf(*order),
            old(self).client_id is Some,
            old(self).client_id->0@ == order.client_order_id@,
        ensures
            *final(self) == apply_spec(*old(self), *order),
    {
        let fill = match order.status {
            BrokerStatus::Filled => true,
            BrokerStatus::PartiallyFilled => true,
            _ => false,
        } && !match self.status {
            Some(LotStatus::Disposed) => true,
            Some(LotStatus::Canceled) => true,
            _ => false,
        };
        self.set_status_from(&order.status);
        if self.open_order_id.is_none() {
            self.open_order_id = Some(order.id);
        }
        self.limit_price = order.limit_price;
        if fill {
            self.filled_qty = Some(order.filled_quantity);
            self.filled_avg_price = order.average_fill_price;
            self.set_cost_basis(&order.filled_quantity, &order.average_fill_price);
        }
        if order.legs.len() > 0 {
            self.detect_disposal(order, OrderType::Stop, DisposeReason::StopOut);
            self.detect_disposal(order, OrderType::Limit, DisposeReason::Profit);
        }
    }

    /// Commits a manual liquidation once the closing order has been
    /// accepted: only an open lot can be liquidated; on any other
    /// status nothing changes and the precondition failure is returned.
    pub fn liquidate_with(&mut self, order: &OrderSnapshot, now: Timestamp) -> (r: Result<
        (),
        LedgerError,
    >)
        ensures
            old(self).status == Some(LotStatus::Open) ==> r is Ok && *final(self)
                == liquidate_spec(*old(self), *order, now),
            old(self).status != Some(LotStatus::Open) ==> r == Err::<(), LedgerError>(
                LedgerError::Precondition,
            ) && *final(self) == *old(self),
    {
        match self.status {
            Some(LotStatus::Open) => {
                self.status = Some(LotStatus::Disposed);
                self.disposed_at = Some(now);
                self.disposed_fill_price = order.average_fill_price;
                self.dispose_reason = Some(DisposeReason::Liquidation);
                self.disposing_order_id = Some(order.id);
                Ok(())
            },
            _ => Err(LedgerError::Precondition),
        }
    }
}

/// A merge preserves well-formedness: the merged lot still has a
/// status, and its cost basis is still exactly what its fill price and
/// filled quantity yield.
pub proof fn lemma_apply_preserves_wf(lot: Lot, o: OrderSnapshot)
    requires
        lot_wf(lot),
    ensures
        lot_wf(apply_spec(lot, o)),
        apply_spec(lot, o).rowid == lot.rowid,
        apply_spec(lot, o).client_id == lot.client_id,
{
    let m = merged_core(lot, o);
    assert(lot_wf(m));
    let d1 = detect_disposal_spec(m, o.legs@, OrderType::Stop, DisposeReason::StopOut);
    assert(lot_wf(d1));
    let d2 = detect_disposal_spec(d1, o.legs@, OrderType::Limit, DisposeReason::Profit);
    assert(lot_wf(d2));
}

/// Relies on uuid::Uuid::new_v4 and its hyphenated rendering: a fresh
/// random version-4 UUID as the 36-character hyphenated string.
#[verifier::external_body]
fn fresh_client_id() -> (r: String)
    ensures
        r@.len() == 36,
{
    uuid::Uuid::new_v4().hyphenated().to_string()
}

/// Relies on chrono::Utc::now for the current wall-clock time; nothing
/// is assumed about the value it returns.
#[verifier::external_body]
fn now_timestamp() -> (r: Timestamp)
{
    Timestamp { epoch_micros: chrono::Utc::now().timestamp_micros() }
}

/// True of the lots a listing shows when canceled lots are hidden.
pub open spec fn listed(l: Lot, show_canceled: bool) -> bool {
    ||| show_canceled
    ||| l.status == Some(LotStatus::Open)
    ||| l.status == Some(LotStatus::Pending)
    ||| l.status == Some(LotStatus::Disposed)
}

/// The listing built from the newest `k` records: newest first, keeping
/// only what the listing shows.
pub open spec fn listing_upto(s: Seq<Lot>, k: int, show_canceled: bool) -> Seq<Lot>
    decreases k,
{
    if k <= 0 {
        Seq::empty()
    } else if listed(s[s.len() - k], show_canceled) {
        listing_upto(s, k - 1, show_canceled) + seq![s[s.len() - k]]
    } else {
        listing_upto(s, k - 1, show_canceled)
    }
}

/// The full listing: every record, newest first, keeping only what the
/// listing shows.
pub open spec fn listing(s: Seq<Lot>, show_canceled: bool) -> Seq<Lot> {
    listing_upto(s, s.len() as int, show_canceled)
}

impl Lot {
    /// Opens a new lot for a just-submitted order: the record starts
    /// `Pending`, carries the requested terms verbatim, a fresh
    /// correlation id and the creation time, and is added to the store
    /// under the row id returned.
    pub fn create(
        store: &mut LotStore,
        sym: String,
        qty: Decimal,
        position_type: PositionType,
        bucket_id: Option<i64>,
        limit_price: Option<Decimal>,
        target_price: Option<Decimal>,
        stop_price: Option<Decimal>,
        time_in_force: Option<OrderTimeInForce>,
    ) -> (rowid: i64)
        requires
            store_wf(old(store)@),
            old(store)@.len() + 1 < MAX_ROWID,
        ensures
            rowid == old(store)@.len() + 1,
            final(store)@ == old(store)@.push(final(store)@.last()),
            store_wf(final(store)@),
            ({
                let l = final(store)@.last();
                &&& l.rowid == Some(rowid)
                &&& l.client_id is Some
                &&& l.client_id->0@.len() == 36
                &&& l.created_at is Some
                &&& l.sym == Some(sym)
                &&& l.qty == Some(qty)
                &&& l.position_type == Some(position_type)
                &&& l.status == Some(LotStatus::Pending)
                &&& l.time_in_force == time_in_force
                &&& l.limit_price == limit_price
                &&& l.target_price == target_price
                &&& l.stop_price == stop_price
                &&& l.bucket_id == bucket_id
                &&& l.filled_qty is None
                &&& l.filled_avg_price is None
                &&& l.cost_basis is None
                &&& l.disposed_at is None
                &&& l.disposed_fill_price is None
                &&& l.dispose_reason is None
                &&& l.broker_status is None
                &&& l.open_order_id is None
                &&& l.disposing_order_id is None
                &&& l.stop_order_id is None
                &&& l.target_order_id is None
            }),
    {
        let lot = Lot {
            rowid: None,
            client_id: Some(fresh_client_id()),
            created_at: Some(now_timestamp()),
            sym: Some(sym),
            qty: Some(qty),
            position_type: Some(position_type),
            status: Some(LotStatus::Pending),
            time_in_force,
            filled_qty: None,
            filled_avg_price: None,
            limit_price,
            target_price,
            stop_price,
            cost_basis: None,
            disposed_at: None,
            disposed_fill_price: None,
            dispose_reason: None,
            broker_status: None,
            open_order_id: None,
            disposing_order_id: None,
            stop_order_id: None,
            target_order_id: None,
            bucket_id,
        };
        store.insert(lot)
    }

    /// Fetches the lot with the given row id.
    pub fn get(store: &LotStore, rowid: i64) -> (r: Result<Lot, LedgerError>)
        requires
            store_wf(store@),
        ensures
            1 <= rowid <= store@.len() ==> r == Ok::<Lot, LedgerError>(store@[rowid - 1]),
            !(1 <= rowid <= store@.len()) ==> r == Err::<Lot, LedgerError>(LedgerError::NotFound),
    {
        store.get_by_id(rowid)
    }

    /// Fetches the first lot carrying the given correlation id.
    pub fn get_by_client_id(store: &LotStore, id: &str) -> (r: Result<Lot, LedgerError>)
        ensures
            match crate::store::find_client(store@, id@) {
                Some(i) => r == Ok::<Lot, LedgerError>(store@[i]),
                None => r == Err::<Lot, LedgerError>(LedgerError::NotFound),
            },
    {
        store.get_by_correlation_id(id)
    }

    /// One page of the ledger, newest lot first: all lots when
    /// `show_canceled` is set, otherwise only open, pending and
    /// disposed ones.
    pub fn get_lots(store: &LotStore, page: i64, limit: i64, show_canceled: bool) -> (r: Vec<
        Lot,
    >)
        requires
            store_wf(store@),
            0 <= page,
            0 <= limit,
            page * limit + limit <= MAX_ROWID,
        ensures
            ({
                let all = listing(store@, show_canceled);
                let start = if page * limit <= all.len() { page * limit } else { all.len() as int };
                let end = if page * limit + limit <= all.len() {
                    page * limit + limit
                } else {
                    all.len() as int
                };
                r@ == all.subrange(start, end)
            }),
    {
        proof {
            assert(0 <= page * limit) by (nonlinear_arith)
                requires
                    0 <= page,
                    0 <= limit,
            ;
        }
        let lots = store.records();
        let n = lots.len();
        let mut all: Vec<Lot> = Vec::new();
        let mut j: usize = 0;
        while j < n
            invariant
                n == store@.len(),
                0 <= j <= n,
                all@ == listing_upto(store@, j as int, show_canceled),
                all@.len() <= j,
                lots@ == store@,
            decreases n - j,
        {
            let idx = n - 1 - j;
            let l = &lots[idx];
            let keep = show_canceled || match l.status {
                Some(LotStatus::Open) => true,
                Some(LotStatus::Pending) => true,
                Some(LotStatus::Disposed) => true,
                _ => false,
            };
            if keep {
                all.push(l.clone());
                proof {
                    assert(all@ =~= listing_upto(store@, j + 1, show_canceled));
                }
            }
            j = j + 1;
        }
        let total = all.len();
        let offset = page * limit;
        let start: usize = if offset <= total as i64 {
            offset as usize
        } else {
            total
        };
        let end: usize = if offset + limit <= total as i64 {
            (offset + limit) as usize
        } else {
            total
        };
        let mut r: Vec<Lot> = Vec::new();
        proof {
            assert(r@ =~= all@.subrange(start as int, start as int));
        }
        let mut t = start;
        while t < end
            invariant
                start <= t <= end <= total,
                total == all@.len(),
                r@ == all@.subrange(start as int, t as int),
            decreases end - t,
        {
            r.push(all[t].clone());
            proof {
                assert(r@ =~= all@.subrange(start as int, t + 1));
            }
            t = t + 1;
        }
        r
    }
}

/// The status rank, computed: equal to `status_rank`.
fn rank_of(s: LotStatus) -> (r: u8)
    ensures
        r as int == status_rank(s),
{
    match s {
        LotStatus::Pending => 0,
        LotStatus::Open => 1,
        LotStatus::Other => 1,
        LotStatus::Disposed => 2,
        LotStatus::Canceled => 2,
    }
}

} // verus!
