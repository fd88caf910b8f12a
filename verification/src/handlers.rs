//! Request-level logic: wiring a configured provider client for each
//! request, collecting the fan-in batch, and reducing it to the served
//! summary.

pub mod alphavantage;
pub mod finnhub;
