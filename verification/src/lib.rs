//! Bulkmail: a parallel transaction sender for fast EVM chains.
//!
//! The library holds the decision logic of the sender: message priorities and
//! deadlines, the priority queue, nonce assignment, gas price estimation and the
//! state machine that reacts to sent, confirmed and dropped transactions.
//! Network I/O, signing and the async event loop live outside the library.
use vstd::prelude::*;

pub mod clock;
pub mod gas_price;
pub mod message;
pub mod nonce_manager;
pub mod priority_queue;
pub mod sender;
pub mod transaction;

verus! {

/// How many times a message may be retried before it is given up.
pub const MAX_RETRIES: u32 = 3;

/// The expected time between two blocks, in seconds.
pub const BLOCK_TIME: u32 = 12;

/// Priority points that a message gains for each block time it has waited.
pub const POINTS_PER_BLOCK: u32 = 1;

/// The errors of the library's own logic.
#[derive(Debug)]
pub enum Error {
    TooManyDependencies(usize),
    GasPriceError(String),
    MessageExpired,
    RetriesExceeded,
    FeeIncreasesExceeded,
    GasPriceTooLow,
    SimulationFailed,
}

} // verus!
