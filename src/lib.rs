//! A constant-product bonding-curve trading engine.
//!
//! The library prices and settles buys and sells of a token against a virtual
//! liquidity pool, keeps the per-token reserve and lifecycle records, and gates
//! the one-time launch that ends trading on the curve. Moving assets, storing
//! records and reading the clock are left to the caller: every operation takes
//! plain values and hands back the records and amounts to settle.
pub mod address;
pub mod constants;
pub mod errors;
pub mod fees;
pub mod instructions;
pub mod laws;
pub mod pricing;
pub mod states;
