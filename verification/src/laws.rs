//! The laws the reconciliation engine obeys, stated and proved over
//! the same spec functions its contracts use.

use vstd::prelude::*;

use crate::decimal::spec_mul;
use crate::lot::{
    apply_spec, detect_disposal_spec, is_terminal, lot_terminal, lot_wf, merged_core,
    next_status_spec, status_for_spec, DisposeReason, Lot, LotStatus,
};
use crate::order::{denotes_fill, first_leg, BrokerStatus, Leg, OrderSnapshot, OrderType};

verus! {

/// The status state machine is total: every broker status — the known
/// enumeration and anything unrecognized — maps to one of the five lot
/// statuses, the known ones exactly as tabulated, everything else to
/// `Other`. Determinism is inherent: the mapping is a function of the
/// broker status alone.
pub proof fn lemma_status_for_total(b: BrokerStatus)
    ensures
        ({
            let s = status_for_spec(b);
            ||| s == LotStatus::Pending
            ||| s == LotStatus::Open
            ||| s == LotStatus::Canceled
            ||| s == LotStatus::Other
        }),
        (b == BrokerStatus::New || b == BrokerStatus::PendingNew || b == BrokerStatus::Accepted)
            <==> status_for_spec(b) == LotStatus::Pending,
        denotes_fill(b) <==> status_for_spec(b) == LotStatus::Open,
        (b == BrokerStatus::Canceled || b == BrokerStatus::Rejected || b == BrokerStatus::Expired)
            <==> status_for_spec(b) == LotStatus::Canceled,
{
}

/// The status machine steps to a fixed point: merging the same broker
/// status a second time leaves the status where the first merge put it.
pub proof fn lemma_next_status_idempotent(cur: Option<LotStatus>, b: BrokerStatus)
    ensures
        next_status_spec(Some(next_status_spec(cur, b)), b) == next_status_spec(cur, b),
{
}

/// Idempotence: merging the same snapshot twice leaves the lot exactly
/// as a single merge does.
pub proof fn lemma_apply_idempotent(lot: Lot, o: OrderSnapshot)
    ensures
        apply_spec(apply_spec(lot, o), o) == apply_spec(lot, o),
{
    let a1 = apply_spec(lot, o);
    lemma_next_status_idempotent(lot.status, o.status);
    assert(merged_core(a1, o) == a1);
    if o.legs@.len() > 0 {
        assert(detect_disposal_spec(a1, o.legs@, OrderType::Stop, DisposeReason::StopOut) == a1);
        assert(detect_disposal_spec(a1, o.legs@, OrderType::Limit, DisposeReason::Profit) == a1);
    }
}

/// Monotonicity: once a lot is Disposed or Canceled, no merge changes
/// its status again.
pub proof fn lemma_apply_keeps_terminal(lot: Lot, o: OrderSnapshot)
    requires
        lot_terminal(lot.status),
    ensures
        apply_spec(lot, o).status == lot.status,
{
}

/// A merge never reassigns the lot's identity, and each bracket leg id
/// is written at most once: an id already captured is never changed,
/// never cleared.
pub proof fn lemma_apply_writes_ids_once(lot: Lot, o: OrderSnapshot)
    ensures
        apply_spec(lot, o).rowid == lot.rowid,
        apply_spec(lot, o).client_id == lot.client_id,
        lot.stop_order_id is Some ==> apply_spec(lot, o).stop_order_id == lot.stop_order_id,
        lot.target_order_id is Some ==> apply_spec(lot, o).target_order_id == lot.target_order_id,
{
}

/// Cost-basis consistency: after any merge, the cost basis is exactly
/// the fill price times the filled quantity whenever a fill price is
/// present, and unset — not zero, not stale — whenever it is absent.
pub proof fn lemma_cost_basis_after_merge(lot: Lot, o: OrderSnapshot)
    requires
        lot_wf(lot),
    ensures
        ({
            let r = apply_spec(lot, o);
            &&& (r.filled_avg_price is Some ==> r.filled_qty is Some && r.cost_basis == Some(
                spec_mul(r.filled_avg_price->0, r.filled_qty->0),
            ))
            &&& (r.filled_avg_price is None ==> r.cost_basis is None)
        }),
{
    crate::lot::lemma_apply_preserves_wf(lot, o);
}

/// Bracket mutual exclusivity, stop side: on a snapshot carrying both
/// legs where only the stop leg reports a fill, the disposal is
/// recorded from the stop leg alone — reason, disposing id, time and
/// price — while the take-profit leg only has its id captured; the
/// merge itself must not already settle the lot.
pub proof fn lemma_bracket_exclusive_stop(lot: Lot, o: OrderSnapshot, stop_leg: Leg, limit_leg: Leg)
    requires
        !lot_terminal(lot.status),
        !is_terminal(next_status_spec(lot.status, o.status)),
        o.legs@.len() > 0,
        first_leg(o.legs@, OrderType::Stop) == Some(stop_leg),
        first_leg(o.legs@, OrderType::Limit) == Some(limit_leg),
        denotes_fill(stop_leg.status),
        !denotes_fill(limit_leg.status),
    ensures
        ({
            let r = apply_spec(lot, o);
            &&& r.status == Some(LotStatus::Disposed)
            &&& r.dispose_reason == Some(DisposeReason::StopOut)
            &&& r.disposing_order_id == Some(stop_leg.id)
            &&& r.disposed_at == stop_leg.filled_at
            &&& r.disposed_fill_price == stop_leg.average_fill_price
            &&& r.stop_order_id == (if lot.stop_order_id is Some {
                lot.stop_order_id
            } else {
                Some(stop_leg.id)
            })
            &&& r.target_order_id == (if lot.target_order_id is Some {
                lot.target_order_id
            } else {
                Some(limit_leg.id)
            })
        }),
{
}

/// Bracket mutual exclusivity, take-profit side: symmetric to the stop
/// side — only the filled take-profit leg's disposal is recorded, the
/// stop leg only has its id captured.
pub proof fn lemma_bracket_exclusive_target(
    lot: Lot,
    o: OrderSnapshot,
    stop_leg: Leg,
    limit_leg: Leg,
)
    requires
        !lot_terminal(lot.status),
        !is_terminal(next_status_spec(lot.status, o.status)),
        o.legs@.len() > 0,
        first_leg(o.legs@, OrderType::Stop) == Some(stop_leg),
        first_leg(o.legs@, OrderType::Limit) == Some(limit_leg),
        !denotes_fill(stop_leg.status),
        denotes_fill(limit_leg.status),
    ensures
        ({
            let r = apply_spec(lot, o);
            &&& r.status == Some(LotStatus::Disposed)
            &&& r.dispose_reason == Some(DisposeReason::Profit)
            &&& r.disposing_order_id == Some(limit_leg.id)
            &&& r.disposed_at == limit_leg.filled_at
            &&& r.disposed_fill_price == limit_leg.average_fill_price
            &&& r.stop_order_id == (if lot.stop_order_id is Some {
                lot.stop_order_id
            } else {
                Some(stop_leg.id)
            })
            &&& r.target_order_id == (if lot.target_order_id is Some {
                lot.target_order_id
            } else {
                Some(limit_leg.id)
            })
        }),
{
}

} // verus!
