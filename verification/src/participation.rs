use vstd::prelude::*;

use crate::errors::Error;

verus! {

/// Index of the source-timeliness participation flag.
pub const TIMELY_SOURCE_FLAG_INDEX: usize = 0;
/// Index of the target-timeliness participation flag.
pub const TIMELY_TARGET_FLAG_INDEX: usize = 1;
/// Index of the head-timeliness participation flag.
pub const TIMELY_HEAD_FLAG_INDEX: usize = 2;
/// Number of participation flags tracked per validator per epoch.
pub const NUM_FLAG_INDICES: usize = 3;

/// Reward weight of the source-timeliness flag.
pub const TIMELY_SOURCE_WEIGHT: u64 = 14;
/// Reward weight of the target-timeliness flag.
pub const TIMELY_TARGET_WEIGHT: u64 = 26;
/// Reward weight of the head-timeliness flag.
pub const TIMELY_HEAD_WEIGHT: u64 = 14;
/// Denominator of all flag-weight fractions: the sum of the three flag
/// weights, so that a fully participating validator's flag rewards add up to
/// one whole base-reward share (reward budget conservation).
pub const WEIGHT_DENOMINATOR: u64 = TIMELY_SOURCE_WEIGHT + TIMELY_TARGET_WEIGHT
    + TIMELY_HEAD_WEIGHT;

/// The weight of the flag at `flag_index`, or `None` outside the flag range.
pub open spec fn spec_flag_weight(flag_index: usize) -> Option<u64> {
    if flag_index == TIMELY_SOURCE_FLAG_INDEX {
        Some(TIMELY_SOURCE_WEIGHT)
    } else if flag_index == TIMELY_TARGET_FLAG_INDEX {
        Some(TIMELY_TARGET_WEIGHT)
    } else if flag_index == TIMELY_HEAD_FLAG_INDEX {
        Some(TIMELY_HEAD_WEIGHT)
    } else {
        None
    }
}

/// Get the weight for a `flag_index` from the fixed set of flag weights.
pub fn get_flag_weight(flag_index: usize) -> (r: Result<u64, Error>)
    ensures
        r == match spec_flag_weight(flag_index) {
            Some(w) => Result::<u64, Error>::Ok(w),
            None => Result::<u64, Error>::Err(Error::InvalidFlagIndex(flag_index)),
        },
{
    if flag_index == TIMELY_SOURCE_FLAG_INDEX {
        Ok(TIMELY_SOURCE_WEIGHT)
    } else if flag_index == TIMELY_TARGET_FLAG_INDEX {
        Ok(TIMELY_TARGET_WEIGHT)
    } else if flag_index == TIMELY_HEAD_FLAG_INDEX {
        Ok(TIMELY_HEAD_WEIGHT)
    } else {
        Err(Error::InvalidFlagIndex(flag_index))
    }
}

/// The three flag weights sum exactly to the weight denominator, so the flag
/// rewards of a fully participating validator together spend exactly one
/// `base_reward * active_increments`-normalized budget and no more.
pub proof fn lemma_flag_weights_total()
    ensures
        TIMELY_SOURCE_WEIGHT + TIMELY_TARGET_WEIGHT + TIMELY_HEAD_WEIGHT
            == WEIGHT_DENOMINATOR,
{
}

/// Per-validator, per-epoch bitset of the three timeliness flags.
#[derive(Clone, Copy, Debug, PartialEq, Eq, Structural)]
pub struct ParticipationFlags {
    /// The flag bits; only the low `NUM_FLAG_INDICES` bits are meaningful.
    pub bits: u8,
}

/// Whether the flag at `flag_index` is set in `bits`.
pub open spec fn spec_has_flag(bits: u8, flag_index: usize) -> bool {
    (bits >> (flag_index as u8)) & 1u8 == 1u8
}

impl ParticipationFlags {
    /// A bitset with no flag set.
    pub fn empty() -> (r: ParticipationFlags)
        ensures
            r.bits == 0u8,
    {
        ParticipationFlags { bits: 0 }
    }

    /// Whether the flag at `flag_index` is set; `flag_index` must name one of
    /// the fixed flags.
    pub fn has_flag(&self, flag_index: usize) -> (r: Result<bool, Error>)
        ensures
            flag_index < NUM_FLAG_INDICES ==> r == Result::<bool, Error>::Ok(
                spec_has_flag(self.bits, flag_index),
            ),
            flag_index >= NUM_FLAG_INDICES ==> r == Result::<bool, Error>::Err(
                Error::InvalidFlagIndex(flag_index),
            ),
    {
        if flag_index < NUM_FLAG_INDICES {
            Ok((self.bits >> (flag_index as u8)) & 1u8 == 1u8)
        } else {
            Err(Error::InvalidFlagIndex(flag_index))
        }
    }

    /// Set the flag at `flag_index`; `flag_index` must name one of the fixed
    /// flags.
    pub fn add_flag(&mut self, flag_index: usize) -> (r: Result<(), Error>)
        ensures
            flag_index < NUM_FLAG_INDICES ==> r == Result::<(), Error>::Ok(())
                && final(self).bits == old(self).bits | (1u8 << (flag_index as u8)),
            flag_index >= NUM_FLAG_INDICES ==> r == Result::<(), Error>::Err(
                Error::InvalidFlagIndex(flag_index),
            ) && final(self).bits == old(self).bits,
    {
        if flag_index < NUM_FLAG_INDICES {
            self.bits = self.bits | (1u8 << (flag_index as u8));
            Ok(())
        } else {
            Err(Error::InvalidFlagIndex(flag_index))
        }
    }
}

} // verus!
