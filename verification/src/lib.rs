//! Core of a copy-trading engine for a bonding-curve DEX and its AMM pool
//! successor: a decoder that turns streamed transaction logs into typed trade
//! events, a position store with a global buy gate, a multi-stage exit policy
//! (retracement ladders, trailing stop, take-profit tiers, emergency exit),
//! and the pure decision parts of the stream supervisor (keepalive, watchdog,
//! force-sell sweep). All I/O lives outside this crate; every function here is
//! a pure computation or a state transition on in-memory values.

pub mod bytes;
pub mod codec;
pub mod decoder;
pub mod encoding;
pub mod engine;
pub mod exit;
pub mod patterns;
pub mod positions;
pub mod stream;
pub mod trade;
pub mod txn;
