//! A payment-streaming ledger.
//!
//! A sender locks a deposit that unlocks to a recipient at a constant rate per
//! second, after an optional cliff. The recipient withdraws what has accrued; the
//! sender may pause, resume or cancel. Every rule of that lifecycle is stated as a
//! contract over the mathematical model of a stream and proved.
//!
//! The ledger moves no tokens and reads no clock: each operation takes the caller
//! and the current time, and answers with the amounts that the host has to pay.

pub mod engine;
pub mod laws;
pub mod store;
pub mod stream;
pub mod types;

pub use engine::FluxoraStream;
pub use store::StreamStore;
pub use stream::Stream;
pub use types::{Config, DataKey, Principal, Settlement, StreamError, StreamStatus};
