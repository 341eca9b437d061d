//! Verified engine for a single-object "possession game": one scarce token
//! circulates among participants; the holder accrues score over time, holding
//! too long triggers decay and eventually forfeiture, and an abandoned token
//! can be reincarnated as a new generation.
//!
//! The engine is deterministic and performs no I/O: the current tick and the
//! caller identity are supplied by the host, and ownership transfers are
//! issued to the host's token ledger as intents. Every mutating operation is
//! split into a read-only plan, which validates preconditions and names the
//! ledger intent, and a commit, which applies the state change once the host's
//! ledger has accepted the intent. A rejected intent leaves the state untouched.

mod config;
mod engine;
mod errors;
mod laws;
mod registry;
mod settlement;

pub use config::GameConfig;
pub use engine::TheArbitrumCore;
pub use errors::CoreError;
pub use errors::LedgerIntent;
pub use laws::lemma_balances_nonnegative;
pub use laws::lemma_generation_within_counter;
pub use laws::lemma_holders_distinct;
pub use laws::lemma_respawn_implies_melting;
pub use laws::lemma_settlement_nonnegative;
pub use registry::UintMap;
pub use registry::seq_get;
pub use settlement::held_ticks;
pub use settlement::lemma_settled_nonnegative;
pub use settlement::settled_balance;
pub use settlement::spec_earned;
pub use settlement::spec_held_ticks;
pub use settlement::spec_penalty;
pub use settlement::spec_settled;
