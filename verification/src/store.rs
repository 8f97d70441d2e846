//! The lot store: the durable keyed record store the reconciliation
//! engine writes through.
//!
//! Records are addressed by the row id the store assigns at insertion,
//! and can be looked up by the lot's correlation id. Every merge is
//! persisted as a single whole-record write (`upsert`).

use vstd::prelude::*;

use crate::lot::{lot_terminal, lot_wf, Lot};

verus! {

/// The failures the ledger reports.
#[derive(Clone, Copy, Debug, PartialEq, Eq, Structural)]
pub enum LedgerError {
    /// The addressed record does not exist.
    NotFound,
    /// A concurrent write raced this one and the merge must be retried
    /// (re-read, re-apply, re-write). This store serializes writers
    /// through exclusive ownership, so only a durable engine behind it
    /// can report this.
    Conflict,
    /// The operation's precondition does not hold; nothing was changed.
    Precondition,
}

/// Largest row id the store hands out.
pub const MAX_ROWID: i64 = 0x7fff_ffff_ffff_ffff;

/// The record store: lots in insertion order, the lot at index `i`
/// carrying row id `i + 1`.
pub struct LotStore {
    lots: Vec<Lot>,
}

impl View for LotStore {
    type V = Seq<Lot>;

    closed spec fn view(&self) -> Seq<Lot> {
        self.lots@
    }
}

/// The store's invariant: each record holds the row id of its slot,
/// and each record is well formed.
pub open spec fn store_wf(s: Seq<Lot>) -> bool {
    &&& s.len() < MAX_ROWID
    &&& forall|i: int|
        0 <= i < s.len() ==> (#[trigger] s[i]).rowid == Some((i + 1) as i64) && lot_wf(s[i])
}

/// True when the lot carries the given correlation id.
pub open spec fn matches_client(l: Lot, id: Seq<char>) -> bool {
    l.client_id is Some && l.client_id->0@ == id
}

/// Index of the first lot carrying the given correlation id at or
/// after position `i`, if any.
pub open spec fn find_client_from(s: Seq<Lot>, id: Seq<char>, i: int) -> Option<int>
    decreases s.len() - i,
{
    if i < 0 || i >= s.len() {
        None
    } else if matches_client(s[i], id) {
        Some(i)
    } else {
        find_client_from(s, id, i + 1)
    }
}

/// Index of the first lot carrying the given correlation id, if any.
pub open spec fn find_client(s: Seq<Lot>, id: Seq<char>) -> Option<int> {
    find_client_from(s, id, 0)
}

/// True of the lots a reconciliation poll targets: not yet terminal,
/// and created with a correlation id to query the broker by.
pub open spec fn eligible_for_poll(l: Lot) -> bool {
    !lot_terminal(l.status) && l.client_id is Some
}

/// The poll-eligible lots among the first `k`, in insertion order.
pub open spec fn non_terminal_upto(s: Seq<Lot>, k: int) -> Seq<Lot>
    decreases k,
{
    if k <= 0 {
        Seq::empty()
    } else if eligible_for_poll(s[k - 1]) {
        non_terminal_upto(s, k - 1) + seq![s[k - 1]]
    } else {
        non_terminal_upto(s, k - 1)
    }
}

impl LotStore {
    /// An empty store.
    pub fn new() -> (r: LotStore)
        ensures
            r@ == Seq::<Lot>::empty(),
            store_wf(r@),
    {
        LotStore { lots: Vec::new() }
    }

    /// How many records the store holds.
    pub fn len(&self) -> (r: usize)
        ensures
            r == self@.len(),
    {
        self.lots.len()
    }

    /// Adds a record, assigning it the next row id, and returns that
    /// row id.
    pub fn insert(&mut self, lot: Lot) -> (rowid: i64)
        requires
            store_wf(old(self)@),
            lot_wf(lot),
            old(self)@.len() + 1 < MAX_ROWID,
        ensures
            rowid == old(self)@.len() + 1,
            final(self)@ == old(self)@.push(Lot { rowid: Some(rowid), ..lot }),
            store_wf(final(self)@),
    {
        let rowid: i64 = self.lots.len() as i64 + 1;
        let mut stored = lot;
        stored.rowid = Some(rowid);
        self.lots.push(stored);
        rowid
    }

    /// Replaces the record addressed by the lot's row id with the given
    /// record: the single atomic write every merge goes through. Fails
    /// with `NotFound`, changing nothing, when the row id is absent or
    /// out of range.
    pub fn upsert(&mut self, lot: &Lot) -> (r: Result<(), LedgerError>)
        requires
            store_wf(old(self)@),
            lot_wf(*lot),
        ensures
            match r {
                Ok(()) => {
                    &&& lot.rowid is Some
                    &&& 1 <= lot.rowid->0 <= old(self)@.len()
                    &&& final(self)@ == old(self)@.update(lot.rowid->0 - 1, *lot)
                },
                Err(e) => {
                    &&& e == LedgerError::NotFound
                    &&& final(self)@ == old(self)@
                    &&& !(lot.rowid is Some && 1 <= lot.rowid->0 <= old(self)@.len())
                },
            },
            store_wf(final(self)@),
    {
        match lot.rowid {
            Some(id) => {
                if 1 <= id && id <= self.lots.len() as i64 {
                    let idx = (id - 1) as usize;
                    self.lots[idx] = lot.clone();
                    Ok(())
                } else {
                    Err(LedgerError::NotFound)
                }
            },
            None => Err(LedgerError::NotFound),
        }
    }

    /// Fetches the record with the given row id.
    pub fn get_by_id(&self, rowid: i64) -> (r: Result<Lot, LedgerError>)
        requires
            store_wf(self@),
        ensures
            1 <= rowid <= self@.len() ==> r == Ok::<Lot, LedgerError>(self@[rowid - 1]),
            !(1 <= rowid <= self@.len()) ==> r == Err::<Lot, LedgerError>(LedgerError::NotFound),
    {
        if 1 <= rowid && rowid <= self.lots.len() as i64 {
            let idx = (rowid - 1) as usize;
            Ok(self.lots[idx].clone())
        } else {
            Err(LedgerError::NotFound)
        }
    }

    /// Fetches the first record carrying the given correlation id.
    pub fn get_by_correlation_id(&self, id: &str) -> (r: Result<Lot, LedgerError>)
        ensures
            match find_client(self@, id@) {
                Some(i) => {
                    &&& 0 <= i < self@.len()
                    &&& r == Ok::<Lot, LedgerError>(self@[i])
                    &&& matches_client(self@[i], id@)
                },
                None => r == Err::<Lot, LedgerError>(LedgerError::NotFound),
            },
    {
        let key: String = id.to_owned();
        let n = self.lots.len();
        let mut i: usize = 0;
        while i < n
            invariant
                n == self@.len(),
                0 <= i <= n,
                key@ == id@,
                find_client_from(self@, id@, 0) == find_client_from(self@, id@, i as int),
            decreases n - i,
        {
            let hit = match &self.lots[i].client_id {
                Some(cid) => *cid == key,
                None => false,
            };
            if hit {
                return Ok(self.lots[i].clone());
            }
            i = i + 1;
        }
        Err(LedgerError::NotFound)
    }

    /// Borrows the records, in insertion order.
    pub fn records(&self) -> (r: &Vec<Lot>)
        ensures
            r@ == self@,
    {
        &self.lots
    }

    /// Lists the lots a reconciliation poll targets: every record whose
    /// status is not yet terminal and that carries a correlation id, in
    /// insertion order.
    pub fn list_non_terminal(&self) -> (r: Vec<Lot>)
        ensures
            r@ == non_terminal_upto(self@, self@.len() as int),
    {
        let n = self.lots.len();
        let mut out: Vec<Lot> = Vec::new();
        let mut k: usize = 0;
        while k < n
            invariant
                n == self@.len(),
                0 <= k <= n,
                out@ == non_terminal_upto(self@, k as int),
            decreases n - k,
        {
            let l = &self.lots[k];
            let terminal = match l.status {
                Some(s) => match s {
                    crate::lot::LotStatus::Disposed => true,
                    crate::lot::LotStatus::Canceled => true,
                    _ => false,
                },
                None => false,
            };
            if !terminal && l.client_id.is_some() {
                out.push(l.clone());
                proof {
                    assert(out@ =~= non_terminal_upto(self@, k + 1));
                }
            }
            k = k + 1;
        }
        out
    }
}

} // verus!
