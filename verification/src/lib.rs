//! Per-epoch state transition for a proof-of-stake validator registry.
//!
//! The library computes, in one pass over the validator set, the five
//! epoch-processing rules: inactivity-score updates, rewards and penalties,
//! registry (activation/exit) updates, slashing penalties, and
//! effective-balance updates, then rolls forward the aggregates needed by the
//! following epoch. Every arithmetic step is checked: overflow, underflow and
//! division by zero abort the pass with an error instead of wrapping, while
//! balance decrements deliberately saturate at zero.

pub mod arith;
pub mod caches;
pub mod config;
pub mod errors;
pub mod participation;
pub mod single_pass;
pub mod state;
pub mod validator;

pub use arith::Delta;
pub use caches::{ActivationQueue, EpochCache, ExitCache, PreEpochCache, ProgressiveBalancesCache};
pub use config::{ChainSpec, ForkName};
pub use errors::Error;
pub use participation::ParticipationFlags;
pub use single_pass::{process_epoch_single_pass, SinglePassConfig, ValidatorInfo};
pub use state::{BeaconState, ParticipationEpochSummary};
pub use validator::Validator;
