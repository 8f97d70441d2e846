//! The reconciliation scheduler: the two paths that drive the merge.
//!
//! A live stream delivers trade-update messages one at a time; a
//! startup (or periodic) poll walks every non-terminal lot and asks the
//! broker for its order. Both paths funnel into the same idempotent
//! merge, and a failure local to one lot or one message never touches
//! the others.

use vstd::prelude::*;

use crate::lot::{apply_spec, lemma_apply_preserves_wf, lot_terminal, Lot, LotStatus};
use crate::order::{snapshot_wf, OrderSnapshot};
use crate::store::{find_client, matches_client, store_wf, LotStore};

verus! {

/// The event kinds a trade-update message can carry.
#[derive(Clone, Copy, Debug, PartialEq, Eq, Structural)]
pub enum StreamEvent {
    New,
    Fill,
    PartialFill,
    Canceled,
    Expired,
    Rejected,
    DoneForDay,
    Replaced,
}

/// One parsed message from the live event stream.
pub struct StreamMessage {
    /// The stream the message belongs to; only `trade_updates` is
    /// processed.
    pub stream: String,
    /// The lifecycle event the message reports.
    pub event: StreamEvent,
    /// The broker's snapshot of the order the event concerns.
    pub order: OrderSnapshot,
}

/// What handling one stream message did to the ledger.
#[derive(Clone, Copy, Debug, PartialEq, Eq, Structural)]
pub enum SyncOutcome {
    /// The snapshot was merged into the lot with this row id.
    Applied(i64),
    /// The message belongs to a stream this ledger does not process.
    IgnoredStream,
    /// The event is acknowledged but causes no ledger mutation.
    IgnoredEvent,
    /// No lot carries the order's correlation id; the message was
    /// dropped and the ledger left unchanged.
    UnknownOrder,
}

/// What one poll query of the broker returned.
pub enum BrokerLookup {
    /// The broker returned the order's snapshot.
    Found(OrderSnapshot),
    /// The broker no longer knows the order: a definitive signal.
    NotFound,
    /// A transient failure; the lot is left for the next pass.
    Failed,
}

/// What the poll did to one lot.
#[derive(Clone, Copy, Debug, PartialEq, Eq, Structural)]
pub enum PollOutcome {
    /// The returned snapshot was merged into the lot.
    Applied,
    /// The broker-side order vanished, so the lot was forced to
    /// Canceled.
    ForcedCanceled,
    /// The lot was left untouched, to be retried on the next pass.
    Skipped,
    /// The returned snapshot carries a different correlation id than
    /// the lot; nothing was changed.
    Mismatched,
    /// No lot has the given row id.
    NoSuchLot,
}

/// Payload of a local notification that a lot changed.
#[derive(Debug)]
pub struct LotUpdateNotice {
    pub sym: String,
    pub rowid: Option<i64>,
    pub order_id: Option<String>,
}

/// A notification pushed to connected observers.
#[derive(Debug)]
pub enum UpdateNotification {
    LotUpdated,
}

/// True of the events that report an execution and so trigger a merge.
pub open spec fn is_fill_event(e: StreamEvent) -> bool {
    e == StreamEvent::Fill || e == StreamEvent::PartialFill
}

/// The ledger a stream message leaves: only a fill or partial-fill
/// event on the `trade_updates` stream, for an order whose correlation
/// id is known, merges that order's snapshot into its lot; everything
/// else leaves the ledger as it is.
pub open spec fn stream_step(s: Seq<Lot>, msg: StreamMessage) -> Seq<Lot> {
    if msg.stream@ != "trade_updates"@ {
        s
    } else if !is_fill_event(msg.event) {
        s
    } else {
        match find_client(s, msg.order.client_order_id@) {
            None => s,
            Some(i) => s.update(i, apply_spec(s[i], msg.order)),
        }
    }
}

/// The outcome a stream message is answered with.
pub open spec fn stream_outcome(s: Seq<Lot>, msg: StreamMessage) -> SyncOutcome {
    if msg.stream@ != "trade_updates"@ {
        SyncOutcome::IgnoredStream
    } else if !is_fill_event(msg.event) {
        SyncOutcome::IgnoredEvent
    } else {
        match find_client(s, msg.order.client_order_id@) {
            None => SyncOutcome::UnknownOrder,
            Some(i) => SyncOutcome::Applied((i + 1) as i64),
        }
    }
}

/// Handles one message from the live stream: resolves the lot by the
/// order's correlation id and merges the snapshot, or drops the
/// message without touching the ledger.
pub fn sync_trade_update(store: &mut LotStore, msg: &StreamMessage) -> (r: SyncOutcome)
    requires
        store_wf(old(store)@),
        snapshot_wf(msg.order),
    ensures
        final(store)@ == stream_step(old(store)@, *msg),
        r == stream_outcome(old(store)@, *msg),
        store_wf(final(store)@),
{
    let key: String = "trade_updates".to_owned();
    if !(msg.stream == key) {
        return SyncOutcome::IgnoredStream;
    }
    let fill_event = match msg.event {
        StreamEvent::Fill => true,
        StreamEvent::PartialFill => true,
        _ => false,
    };
    if !fill_event {
        return SyncOutcome::IgnoredEvent;
    }
    match store.get_by_correlation_id(msg.order.client_order_id.as_str()) {
        Err(_) => SyncOutcome::UnknownOrder,
        Ok(mut lot) => {
            let rowid = match lot.rowid {
                Some(id) => id,
                None => 0,
            };
            lot.fill_with(&msg.order);
            proof {
                let i = find_client(old(store)@, msg.order.client_order_id@)->0;
                lemma_apply_preserves_wf(old(store)@[i], msg.order);
            }
            let res = store.upsert(&lot);
            proof {
                assert(res is Ok);
            }
            SyncOutcome::Applied(rowid)
        },
    }
}

/// The lot record a vanished broker order leaves: the status is forced
/// to Canceled and no other field is mutated.
pub open spec fn force_canceled(l: Lot) -> Lot {
    Lot { status: Some(LotStatus::Canceled), ..l }
}

/// The ledger one poll answer leaves. A returned snapshot is merged if
/// its correlation id is the lot's own; a definitive not-found forces a
/// still-live lot to Canceled; a transient failure, an unknown row id,
/// a mismatched snapshot or an already terminal lot leave the ledger
/// unchanged.
pub open spec fn poll_step(s: Seq<Lot>, rowid: i64, lk: BrokerLookup) -> Seq<Lot> {
    if !(1 <= rowid <= s.len()) {
        s
    } else {
        let i = rowid - 1;
        let l = s[i];
        match lk {
            BrokerLookup::Found(o) => if l.client_id is Some && l.client_id->0@
                == o.client_order_id@ {
                s.update(i, apply_spec(l, o))
            } else {
                s
            },
            BrokerLookup::NotFound => if !lot_terminal(l.status) {
                s.update(i, force_canceled(l))
            } else {
                s
            },
            BrokerLookup::Failed => s,
        }
    }
}

/// The outcome one poll answer is reported with.
pub open spec fn poll_outcome(s: Seq<Lot>, rowid: i64, lk: BrokerLookup) -> PollOutcome {
    if !(1 <= rowid <= s.len()) {
        PollOutcome::NoSuchLot
    } else {
        let l = s[rowid - 1];
        match lk {
            BrokerLookup::Found(o) => if l.client_id is Some && l.client_id->0@
                == o.client_order_id@ {
                PollOutcome::Applied
            } else {
                PollOutcome::Mismatched
            },
            BrokerLookup::NotFound => if !lot_terminal(l.status) {
                PollOutcome::ForcedCanceled
            } else {
                PollOutcome::Skipped
            },
            BrokerLookup::Failed => PollOutcome::Skipped,
        }
    }
}

/// Applies what one poll query of the broker returned to the lot with
/// the given row id.
pub fn apply_poll_result(store: &mut LotStore, rowid: i64, lookup: &BrokerLookup) -> (r:
    PollOutcome)
    requires
        store_wf(old(store)@),
        *lookup matches BrokerLookup::Found(o) ==> snapshot_wf(o),
    ensures
        final(store)@ == poll_step(old(store)@, rowid, *lookup),
        r == poll_outcome(old(store)@, rowid, *lookup),
        store_wf(final(store)@),
{
    match store.get_by_id(rowid) {
        Err(_) => PollOutcome::NoSuchLot,
        Ok(mut lot) => {
            match lookup {
                BrokerLookup::Found(o) => {
                    let matched = match &lot.client_id {
                        Some(cid) => *cid == o.client_order_id,
                        None => false,
                    };
                    if matched {
                        lot.fill_with(o);
                        proof {
                            lemma_apply_preserves_wf(old(store)@[rowid - 1], *o);
                        }
                        let res = store.upsert(&lot);
                        proof {
                            assert(res is Ok);
                        }
                        PollOutcome::Applied
                    } else {
                        PollOutcome::Mismatched
                    }
                },
                BrokerLookup::NotFound => {
                    let terminal = match lot.status {
                        Some(LotStatus::Disposed) => true,
                        Some(LotStatus::Canceled) => true,
                        _ => false,
                    };
                    if !terminal {
                        lot.status = Some(LotStatus::Canceled);
                        let res = store.upsert(&lot);
                        proof {
                            assert(res is Ok);
                        }
                        PollOutcome::ForcedCanceled
                    } else {
                        PollOutcome::Skipped
                    }
                },
                BrokerLookup::Failed => PollOutcome::Skipped,
            }
        },
    }
}

/// The ledger a whole poll pass leaves: the answers applied one after
/// another, from position `i` on.
pub open spec fn poll_fold_from(s: Seq<Lot>, rs: Seq<(i64, BrokerLookup)>, i: int) -> Seq<Lot>
    decreases rs.len() - i,
{
    if i < 0 || i >= rs.len() {
        s
    } else {
        poll_fold_from(poll_step(s, rs[i].0, rs[i].1), rs, i + 1)
    }
}

/// Runs one full reconciliation pass over pre-fetched poll answers:
/// each lot's answer is applied independently, in order, and no lot's
/// failure keeps the others from being processed.
pub fn startup_sync(store: &mut LotStore, results: &Vec<(i64, BrokerLookup)>)
    requires
        store_wf(old(store)@),
        forall|k: int|
            0 <= k < results@.len() ==> ((#[trigger] results@[k]).1 matches BrokerLookup::Found(o)
                ==> snapshot_wf(o)),
    ensures
        final(store)@ == poll_fold_from(old(store)@, results@, 0),
        store_wf(final(store)@),
{
    let n = results.len();
    let mut idx: usize = 0;
    while idx < n
        invariant
            n == results@.len(),
            0 <= idx <= n,
            store_wf(store@),
            poll_fold_from(old(store)@, results@, 0) == poll_fold_from(store@, results@, idx as int),
            forall|k: int|
                0 <= k < results@.len() ==> ((#[trigger] results@[k]).1 matches
                    BrokerLookup::Found(o) ==> snapshot_wf(o)),
        decreases n - idx,
    {
        let pair = &results[idx];
        apply_poll_result(store, pair.0, &pair.1);
        idx = idx + 1;
    }
}

} // verus!
