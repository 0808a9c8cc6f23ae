//! Settlement and transfer-policy logic for a governed fungible asset.
//!
//! The crate has two halves. The sale half keeps the persistent record of a
//! bounded-time token sale — funding caps, a time window, a running total —
//! and decides, for each purchase request, whether the exchange may happen
//! and what it must move. The policy half keeps the transfer policy of one
//! asset — four independently toggleable gates — and decides, for each
//! transfer request, whether it may proceed.
//!
//! Everything that touches the outside world (the clock, the ledger that
//! moves balances, the store that persists records) is a collaborator of the
//! host program: its readings enter here as plain values, and the decisions
//! leave as plain values, so the whole of the decision logic is verified.

pub mod errors;
pub mod policy;
pub mod sale;
