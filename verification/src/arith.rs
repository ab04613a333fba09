use vstd::prelude::*;

use crate::errors::Error;

verus! {

/// `a - b` floored at zero: the deliberate saturation policy for balance
/// decrements.
pub open spec fn spec_saturating_sub(a: u64, b: u64) -> u64 {
    if a >= b {
        (a - b) as u64
    } else {
        0u64
    }
}

/// Balance saturation: a saturating decrement never underflows. The result
/// is never negative, equals the exact difference while the subtrahend fits,
/// and floors at zero otherwise.
pub proof fn lemma_saturating_sub_bounds(a: u64, b: u64)
    ensures
        spec_saturating_sub(a, b) >= 0,
        a >= b ==> spec_saturating_sub(a, b) == a - b,
        a < b ==> spec_saturating_sub(a, b) == 0,
        spec_saturating_sub(a, b) <= a,
{
}

/// The checked sum of a sequence of amounts: `None` as soon as a prefix sum
/// leaves the `u64` range.
pub open spec fn spec_checked_sum(s: Seq<u64>) -> Option<u64>
    decreases s.len(),
{
    if s.len() == 0 {
        Some(0u64)
    } else {
        match spec_checked_sum(s.drop_last()) {
            Some(acc) => {
                if acc + s.last() > u64::MAX {
                    None
                } else {
                    Some((acc + s.last()) as u64)
                }
            },
            None => None,
        }
    }
}

/// Sum the amounts in `values`, failing on overflow.
pub fn checked_sum(values: &Vec<u64>) -> (r: Result<u64, Error>)
    ensures
        r == match spec_checked_sum(values@) {
            Some(total) => Result::<u64, Error>::Ok(total),
            None => Result::<u64, Error>::Err(Error::ArithmeticError),
        },
{
    let mut total: u64 = 0;
    let mut i: usize = 0;
    while i < values.len()
        invariant
            i <= values.len(),
            spec_checked_sum(values@.subrange(0, i as int)) == Some(total),
        decreases values.len() - i,
    {
        proof {
            assert(values@.subrange(0, i + 1).drop_last() =~= values@.subrange(0, i as int));
            assert(values@.subrange(0, i + 1).last() == values@[i as int]);
        }
        match total.checked_add(values[i]) {
            Some(next) => {
                total = next;
            },
            None => {
                proof {
                    lemma_checked_sum_prefix_none(values@, i + 1);
                }
                return Err(Error::ArithmeticError);
            },
        }
        i = i + 1;
    }
    proof {
        assert(values@.subrange(0, values@.len() as int) =~= values@);
    }
    Ok(total)
}

/// Once a prefix of `s` overflows the checked sum, every longer prefix does
/// too, and so does the whole sequence.
proof fn lemma_checked_sum_prefix_none(s: Seq<u64>, n: int)
    requires
        0 <= n <= s.len(),
        spec_checked_sum(s.subrange(0, n)) is None,
    ensures
        spec_checked_sum(s) is None,
    decreases s.len() - n,
{
    if n == s.len() {
        assert(s.subrange(0, n) =~= s);
    } else {
        assert(s.subrange(0, n + 1).drop_last() =~= s.subrange(0, n));
        lemma_checked_sum_prefix_none(s, n + 1);
    }
}

/// Accumulator of one validator's pending rewards and penalties, combined
/// additively and applied to the balance once.
#[derive(Clone, Copy, Debug, PartialEq, Eq, Structural)]
pub struct Delta {
    /// Total pending reward.
    pub rewards: u64,
    /// Total pending penalty.
    pub penalties: u64,
}

impl Delta {
    /// An empty accumulator.
    pub fn new() -> (r: Delta)
        ensures
            r.rewards == 0u64 && r.penalties == 0u64,
    {
        Delta { rewards: 0, penalties: 0 }
    }

    /// Add `amount` to the pending rewards, failing on overflow.
    pub fn reward(&mut self, amount: u64) -> (r: Result<(), Error>)
        ensures
            old(self).rewards + amount <= u64::MAX ==> r == Result::<(), Error>::Ok(())
                && final(self).rewards == old(self).rewards + amount
                && final(self).penalties == old(self).penalties,
            old(self).rewards + amount > u64::MAX ==> r == Result::<(), Error>::Err(
                Error::ArithmeticError,
            ) && *final(self) == *old(self),
    {
        match self.rewards.checked_add(amount) {
            Some(next) => {
                self.rewards = next;
                Ok(())
            },
            None => Err(Error::ArithmeticError),
        }
    }

    /// Add `amount` to the pending penalties, failing on overflow.
    pub fn penalize(&mut self, amount: u64) -> (r: Result<(), Error>)
        ensures
            old(self).penalties + amount <= u64::MAX ==> r == Result::<(), Error>::Ok(())
                && final(self).penalties == old(self).penalties + amount
                && final(self).rewards == old(self).rewards,
            old(self).penalties + amount > u64::MAX ==> r == Result::<(), Error>::Err(
                Error::ArithmeticError,
            ) && *final(self) == *old(self),
    {
        match self.penalties.checked_add(amount) {
            Some(next) => {
                self.penalties = next;
                Ok(())
            },
            None => Err(Error::ArithmeticError),
        }
    }
}

} // verus!
