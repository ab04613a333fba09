use vstd::prelude::*;

use crate::config::ChainSpec;

verus! {

/// One validator's registry record. Epoch fields hold the far-future
/// sentinel of the chain configuration while unset.
#[derive(Clone, Copy, Debug, PartialEq, Eq, Structural)]
pub struct Validator {
    /// Balance rounded to the increment, used for all consensus weight.
    pub effective_balance: u64,
    /// Whether the validator has been slashed.
    pub slashed: bool,
    /// Epoch at which the validator became eligible for the activation
    /// queue.
    pub activation_eligibility_epoch: u64,
    /// First epoch of active duty.
    pub activation_epoch: u64,
    /// First epoch no longer active; sentinel while no exit is scheduled.
    pub exit_epoch: u64,
    /// Epoch from which the balance may be withdrawn.
    pub withdrawable_epoch: u64,
}

impl Validator {
    /// Whether the validator is in its active period at `epoch`.
    pub open spec fn spec_is_active_at(&self, epoch: u64) -> bool {
        self.activation_epoch <= epoch && epoch < self.exit_epoch
    }

    /// Whether the validator is in its active period at `epoch`.
    pub fn is_active_at(&self, epoch: u64) -> (r: bool)
        ensures
            r == self.spec_is_active_at(epoch),
    {
        self.activation_epoch <= epoch && epoch < self.exit_epoch
    }

    /// Whether the validator newly meets the activation-eligibility
    /// criteria: not yet queued, and at the maximum effective balance.
    pub open spec fn spec_is_eligible_for_activation_queue(&self, spec: &ChainSpec) -> bool {
        self.activation_eligibility_epoch == spec.far_future_epoch
            && self.effective_balance == spec.max_effective_balance
    }

    /// Whether the validator newly meets the activation-eligibility
    /// criteria: not yet queued, and at the maximum effective balance.
    pub fn is_eligible_for_activation_queue(&self, spec: &ChainSpec) -> (r: bool)
        ensures
            r == self.spec_is_eligible_for_activation_queue(spec),
    {
        self.activation_eligibility_epoch == spec.far_future_epoch
            && self.effective_balance == spec.max_effective_balance
    }

    /// Whether the validator could become eligible for activation by
    /// `epoch`: not yet activated, and queued no later than `epoch`.
    pub open spec fn spec_could_be_eligible_for_activation_at(
        &self,
        epoch: u64,
        spec: &ChainSpec,
    ) -> bool {
        self.activation_epoch == spec.far_future_epoch
            && self.activation_eligibility_epoch <= epoch
    }

    /// Whether the validator could become eligible for activation by
    /// `epoch`: not yet activated, and queued no later than `epoch`.
    pub fn could_be_eligible_for_activation_at(&self, epoch: u64, spec: &ChainSpec) -> (r: bool)
        ensures
            r == self.spec_could_be_eligible_for_activation_at(epoch, spec),
    {
        self.activation_epoch == spec.far_future_epoch
            && self.activation_eligibility_epoch <= epoch
    }
}

} // verus!
