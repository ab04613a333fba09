use vstd::prelude::*;

use crate::errors::Error;

verus! {

/// The first epoch of the chain; inactivity and reward processing are
/// skipped at the genesis boundary.
pub const GENESIS_EPOCH: u64 = 0;

/// The protocol versions whose fork-dependent constants this core
/// distinguishes. Later forks share the latest constants listed here.
#[derive(Clone, Copy, Debug, PartialEq, Eq, Structural)]
pub enum ForkName {
    Altair,
    Bellatrix,
    Capella,
}

/// Immutable bag of chain-configuration constants, threaded explicitly into
/// every computation; never global state.
#[derive(Clone, Copy, Debug, PartialEq, Eq, Structural)]
pub struct ChainSpec {
    /// Sentinel epoch meaning "unset"; an epoch field holding it has not been
    /// scheduled.
    pub far_future_epoch: u64,
    /// Smallest unit of effective-balance quantization.
    pub effective_balance_increment: u64,
    /// Upper bound on any effective balance.
    pub max_effective_balance: u64,
    /// An active validator at or below this effective balance is ejected.
    pub ejection_balance: u64,
    /// Amount added to the inactivity score of a non-participating validator.
    pub inactivity_score_bias: u64,
    /// Amount forgiven from the inactivity score each epoch outside a leak.
    pub inactivity_score_recovery_rate: u64,
    /// Inactivity-penalty quotient from the first fork with participation
    /// flags.
    pub inactivity_penalty_quotient_altair: u64,
    /// Inactivity-penalty quotient from the merge fork onwards.
    pub inactivity_penalty_quotient_bellatrix: u64,
    /// Slashing-sum multiplier from the first fork with participation flags.
    pub proportional_slashing_multiplier_altair: u64,
    /// Slashing-sum multiplier from the merge fork onwards.
    pub proportional_slashing_multiplier_bellatrix: u64,
    /// Divisor of the increment that sets the hysteresis unit.
    pub hysteresis_quotient: u64,
    /// Hysteresis units of tolerated downward balance drift.
    pub hysteresis_downward_multiplier: u64,
    /// Hysteresis units of tolerated upward balance drift.
    pub hysteresis_upward_multiplier: u64,
    /// Lower bound of the per-epoch exit churn limit.
    pub min_per_epoch_churn_limit: u64,
    /// Divisor of the active-validator count in the churn limit.
    pub churn_limit_quotient: u64,
    /// Epochs between an exit and the funds becoming withdrawable.
    pub min_validator_withdrawability_delay: u64,
    /// Lookahead, in epochs, before a scheduled activation or exit takes
    /// effect.
    pub max_seed_lookahead: u64,
}

impl ChainSpec {
    /// The inactivity-penalty quotient in force under `fork`.
    pub open spec fn spec_inactivity_penalty_quotient_for_fork(&self, fork: ForkName) -> u64 {
        match fork {
            ForkName::Altair => self.inactivity_penalty_quotient_altair,
            ForkName::Bellatrix => self.inactivity_penalty_quotient_bellatrix,
            ForkName::Capella => self.inactivity_penalty_quotient_bellatrix,
        }
    }

    /// The inactivity-penalty quotient in force under `fork`.
    pub fn inactivity_penalty_quotient_for_fork(&self, fork: ForkName) -> (r: u64)
        ensures
            r == self.spec_inactivity_penalty_quotient_for_fork(fork),
    {
        match fork {
            ForkName::Altair => self.inactivity_penalty_quotient_altair,
            ForkName::Bellatrix => self.inactivity_penalty_quotient_bellatrix,
            ForkName::Capella => self.inactivity_penalty_quotient_bellatrix,
        }
    }

    /// The slashing-sum multiplier in force under `fork`.
    pub open spec fn spec_proportional_slashing_multiplier_for_fork(
        &self,
        fork: ForkName,
    ) -> u64 {
        match fork {
            ForkName::Altair => self.proportional_slashing_multiplier_altair,
            ForkName::Bellatrix => self.proportional_slashing_multiplier_bellatrix,
            ForkName::Capella => self.proportional_slashing_multiplier_bellatrix,
        }
    }

    /// The slashing-sum multiplier in force under `fork`.
    pub fn proportional_slashing_multiplier_for_fork(&self, fork: ForkName) -> (r: u64)
        ensures
            r == self.spec_proportional_slashing_multiplier_for_fork(fork),
    {
        match fork {
            ForkName::Altair => self.proportional_slashing_multiplier_altair,
            ForkName::Bellatrix => self.proportional_slashing_multiplier_bellatrix,
            ForkName::Capella => self.proportional_slashing_multiplier_bellatrix,
        }
    }

    /// The earliest epoch at which an activation or exit scheduled during
    /// `epoch` may take effect, as a mathematical integer.
    pub open spec fn spec_activation_exit_epoch(&self, epoch: u64) -> int {
        epoch + 1 + self.max_seed_lookahead
    }

    /// The earliest epoch at which an activation or exit scheduled during
    /// `epoch` may take effect: `epoch + 1 + max_seed_lookahead`.
    pub fn compute_activation_exit_epoch(&self, epoch: u64) -> (r: Result<u64, Error>)
        ensures
            self.spec_activation_exit_epoch(epoch) <= u64::MAX ==> r
                == Result::<u64, Error>::Ok(self.spec_activation_exit_epoch(epoch) as u64),
            self.spec_activation_exit_epoch(epoch) > u64::MAX ==> r
                == Result::<u64, Error>::Err(Error::ArithmeticError),
    {
        let next = match epoch.checked_add(1) {
            Some(n) => n,
            None => {
                return Err(Error::ArithmeticError);
            },
        };
        match next.checked_add(self.max_seed_lookahead) {
            Some(n) => Ok(n),
            None => Err(Error::ArithmeticError),
        }
    }
}

} // verus!
