//! Ledger of trading "lots": locally held positions opened through a broker,
//! kept consistent with the broker's asynchronous view of each order.
//!
//! The core is the reconciliation engine: a status state machine, an
//! idempotent merge of broker order snapshots into lot records, a
//! bracket-leg disposal detector, and the two reconciliation paths
//! (startup poll and live stream) that drive the merge.

pub mod bucket;
pub mod decimal;
pub mod laws;
pub mod liquidate;
pub mod lot;
pub mod order;
pub mod store;
pub mod sync;
