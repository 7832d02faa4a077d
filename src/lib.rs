//! Accounting and risk core of a multi-asset collateralized lending market.
//!
//! Every operation is a pure step from the current records (market
//! configuration, asset pools, user positions, credit delegations) to the
//! next records plus the token movements the host has to carry out. The host
//! supplies the clock, the presented account identities and the oracle
//! reading; on any error no record is changed.

pub mod batch;
pub mod delegation;
pub mod error;
pub mod events;
pub mod flash;
pub mod keys;
pub mod laws;
pub mod liquidation;
pub mod market;
pub mod math;
pub mod ops;
pub mod oracle;
pub mod pool;
pub mod position;
pub mod risk;
pub mod wide;
