//! Time-weighted average price (TWAP) pipeline for a Uniswap V3 pool oracle.
//!
//! The pipeline takes two time-offset cumulative-tick samples from a pool's
//! oracle, derives a deterministic average tick, converts that tick into a
//! decimal price at a fixed number of significant digits, and records the
//! result idempotently, at most once per pair and block timestamp.
//!
//! This crate holds the verified core: the observation model, the average-tick
//! calculation, the price conversion (through the Uniswap SDK), the idempotent
//! persistence model, and the per-block orchestration that isolates failures
//! per pair. The RPC transport, the scheduling engine and the database
//! connection live outside of it and hand plain values in and out.

pub mod config;
pub mod error;
pub mod eval;
pub mod observation;
pub mod price;
pub mod store;
pub mod twap;
