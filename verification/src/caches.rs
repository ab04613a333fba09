use vstd::prelude::*;

use crate::config::ChainSpec;
use crate::errors::Error;
use crate::participation::{spec_has_flag, ParticipationFlags, NUM_FLAG_INDICES};
use crate::validator::Validator;

verus! {

/// Whether `e` is a recorded epoch of the churn table `s`.
pub open spec fn spec_has_epoch(s: Seq<(u64, u64)>, e: u64) -> bool {
    exists|i: int| 0 <= i < s.len() && s[i].0 == e
}

/// The churn recorded at epoch `e` in the table `s`: the count of the first
/// entry for `e`, or zero when none exists.
pub open spec fn spec_lookup(s: Seq<(u64, u64)>, e: u64) -> u64
    decreases s.len(),
{
    if s.len() == 0 {
        0u64
    } else if s[0].0 == e {
        s[0].1
    } else {
        spec_lookup(s.subrange(1, s.len() as int), e)
    }
}

/// Whether every churn count in the table `s` is at most `limit`.
pub open spec fn spec_churn_bounded(s: Seq<(u64, u64)>, limit: u64) -> bool {
    forall|i: int| 0 <= i < s.len() ==> #[trigger] s[i].1 <= limit
}

/// The first entry for an epoch decides its recorded churn.
proof fn lemma_lookup_first(s: Seq<(u64, u64)>, i: int)
    requires
        0 <= i < s.len(),
        forall|j: int| 0 <= j < i ==> #[trigger] s[j].0 != s[i].0,
    ensures
        spec_lookup(s, s[i].0) == s[i].1,
    decreases i,
{
    if i > 0 {
        let t = s.subrange(1, s.len() as int);
        assert(t[i - 1] == s[i]);
        assert(forall|j: int| 0 <= j < i - 1 ==> #[trigger] t[j].0 != t[i - 1].0);
        lemma_lookup_first(t, i - 1);
    }
}

/// An epoch with no entry has zero recorded churn.
pub proof fn lemma_lookup_absent(s: Seq<(u64, u64)>, e: u64)
    requires
        forall|j: int| 0 <= j < s.len() ==> #[trigger] s[j].0 != e,
    ensures
        spec_lookup(s, e) == 0,
    decreases s.len(),
{
    if s.len() > 0 {
        let t = s.subrange(1, s.len() as int);
        assert(forall|j: int| 0 <= j < t.len() ==> #[trigger] t[j].0 != e);
        lemma_lookup_absent(t, e);
    }
}

/// Overwriting the count of an epoch's first entry changes that epoch's
/// recorded churn and no other epoch's.
proof fn lemma_lookup_update(s: Seq<(u64, u64)>, i: int, v: u64, x: u64)
    requires
        0 <= i < s.len(),
        forall|j: int| 0 <= j < i ==> #[trigger] s[j].0 != s[i].0,
    ensures
        spec_lookup(s.update(i, (s[i].0, v)), x) == if x == s[i].0 {
            v
        } else {
            spec_lookup(s, x)
        },
    decreases i,
{
    let u = s.update(i, (s[i].0, v));
    if i == 0 {
        assert(u.subrange(1, u.len() as int) =~= s.subrange(1, s.len() as int));
    } else {
        let t = s.subrange(1, s.len() as int);
        assert(t[i - 1] == s[i]);
        assert(forall|j: int| 0 <= j < i - 1 ==> #[trigger] t[j].0 != t[i - 1].0);
        assert(u.subrange(1, u.len() as int) =~= t.update(i - 1, (t[i - 1].0, v)));
        lemma_lookup_update(t, i - 1, v, x);
    }
}

/// Appending an entry for a new epoch sets that epoch's recorded churn and
/// leaves every recorded epoch's churn as it was.
proof fn lemma_lookup_push(s: Seq<(u64, u64)>, p: (u64, u64), x: u64)
    ensures
        spec_lookup(s.push(p), x) == if spec_has_epoch(s, x) {
            spec_lookup(s, x)
        } else if x == p.0 {
            p.1
        } else {
            0u64
        },
    decreases s.len(),
{
    if s.len() == 0 {
        assert(s.push(p)[0] == p);
        assert(s.push(p).subrange(1, 1) =~= Seq::<(u64, u64)>::empty());
        assert(spec_lookup(s.push(p).subrange(1, 1), x) == 0u64);
        assert(!spec_has_epoch(s, x));
    } else {
        assert(s.push(p)[0] == s[0]);
        let t = s.subrange(1, s.len() as int);
        assert(s.push(p).subrange(1, s.len() as int + 1) =~= t.push(p));
        lemma_lookup_push(t, p, x);
        assert(spec_lookup(s, x) == if s[0].0 == x {
            s[0].1
        } else {
            spec_lookup(t, x)
        });
        assert(spec_lookup(s.push(p), x) == if s[0].0 == x {
            s[0].1
        } else {
            spec_lookup(t.push(p), x)
        });
        if s[0].0 == x {
            assert(spec_has_epoch(s, x));
        } else {
            assert(spec_has_epoch(s, x) ==> spec_has_epoch(t, x)) by {
                if spec_has_epoch(s, x) {
                    let i = choose|i: int| 0 <= i < s.len() && s[i].0 == x;
                    assert(t[i - 1].0 == x);
                    assert(spec_has_epoch(t, x));
                }
            }
            assert(spec_has_epoch(t, x) ==> spec_has_epoch(s, x)) by {
                if spec_has_epoch(t, x) {
                    let i = choose|i: int| 0 <= i < t.len() && t[i].0 == x;
                    assert(s[i + 1].0 == x);
                    assert(spec_has_epoch(s, x));
                }
            }
        }
    }
}

/// The churn table after one more exit at `e`: the first entry for `e` is
/// incremented, or a fresh entry is appended when none exists.
pub open spec fn spec_record_entries(s: Seq<(u64, u64)>, e: u64) -> Seq<(u64, u64)>
    decreases s.len(),
{
    if s.len() == 0 {
        seq![(e, 1u64)]
    } else if s[0].0 == e {
        seq![(s[0].0, (s[0].1 + 1) as u64)] + s.subrange(1, s.len() as int)
    } else {
        seq![s[0]] + spec_record_entries(s.subrange(1, s.len() as int), e)
    }
}

/// Recording at an epoch whose first entry is `i` increments that entry.
proof fn lemma_record_entries_found(s: Seq<(u64, u64)>, i: int)
    requires
        0 <= i < s.len(),
        forall|j: int| 0 <= j < i ==> #[trigger] s[j].0 != s[i].0,
    ensures
        spec_record_entries(s, s[i].0) =~= s.update(i, (s[i].0, (s[i].1 + 1) as u64)),
    decreases i,
{
    if i == 0 {
        assert(spec_record_entries(s, s[0].0) =~= s.update(0, (s[0].0, (s[0].1 + 1) as u64)));
    } else {
        let t = s.subrange(1, s.len() as int);
        assert(t[i - 1] == s[i]);
        assert(forall|j: int| 0 <= j < i - 1 ==> #[trigger] t[j].0 != t[i - 1].0);
        lemma_record_entries_found(t, i - 1);
        assert(spec_record_entries(s, s[i].0) =~= seq![s[0]] + t.update(
            i - 1,
            (s[i].0, (s[i].1 + 1) as u64),
        ));
        assert(seq![s[0]] + t.update(i - 1, (s[i].0, (s[i].1 + 1) as u64)) =~= s.update(
            i,
            (s[i].0, (s[i].1 + 1) as u64),
        ));
    }
}

/// Recording at an epoch with no entry appends a fresh one.
proof fn lemma_record_entries_absent(s: Seq<(u64, u64)>, e: u64)
    requires
        forall|j: int| 0 <= j < s.len() ==> #[trigger] s[j].0 != e,
    ensures
        spec_record_entries(s, e) =~= s.push((e, 1u64)),
    decreases s.len(),
{
    if s.len() > 0 {
        let t = s.subrange(1, s.len() as int);
        assert(forall|j: int| 0 <= j < t.len() ==> #[trigger] t[j].0 != e);
        lemma_record_entries_absent(t, e);
        assert(spec_record_entries(s, e) =~= seq![s[0]] + t.push((e, 1u64)));
        assert(seq![s[0]] + t.push((e, 1u64)) =~= s.push((e, 1u64)));
    }
}

/// Per-epoch exit churn counters plus the maximum exit epoch observed;
/// mutated as validators are ejected.
#[derive(Clone, Debug)]
pub struct ExitCache {
    /// One `(epoch, churn)` entry per epoch with at least one recorded exit.
    pub entries: Vec<(u64, u64)>,
    /// The greatest exit epoch recorded, or `None` while no exit is.
    pub max_exit_epoch: Option<u64>,
}

impl ExitCache {
    /// The stored maximum is exactly the greatest recorded epoch.
    pub open spec fn wf(&self) -> bool {
        match self.max_exit_epoch {
            Option::None => self.entries@.len() == 0,
            Option::Some(m) => spec_has_epoch(self.entries@, m) && forall|i: int|
                0 <= i < self.entries@.len() ==> #[trigger] self.entries@[i].0 <= m,
        }
    }

    /// An empty cache: no exit recorded at any epoch.
    pub fn new() -> (r: ExitCache)
        ensures
            r.wf(),
            r.entries@.len() == 0,
            r.max_exit_epoch is None,
    {
        ExitCache { entries: Vec::new(), max_exit_epoch: None }
    }

    /// The greatest exit epoch recorded so far, if any.
    pub fn max_epoch(&self) -> (r: Option<u64>)
        ensures
            r == self.max_exit_epoch,
    {
        self.max_exit_epoch
    }

    /// The first entry holding `epoch`, if any.
    fn find_epoch_index(&self, epoch: u64) -> (r: Option<usize>)
        ensures
            match r {
                Option::Some(i) => i < self.entries@.len() && self.entries@[i as int].0 == epoch
                    && forall|j: int| 0 <= j < i ==> #[trigger] self.entries@[j].0 != epoch,
                Option::None => forall|j: int|
                    0 <= j < self.entries@.len() ==> #[trigger] self.entries@[j].0 != epoch,
            },
    {
        let n = self.entries.len();
        let mut i: usize = 0;
        while i < n
            invariant
                n == self.entries@.len(),
                i <= n,
                forall|j: int| 0 <= j < i ==> #[trigger] self.entries@[j].0 != epoch,
            decreases n - i,
        {
            if self.entries[i].0 == epoch {
                return Some(i);
            }
            i = i + 1;
        }
        None
    }

    /// The churn recorded at `epoch`: how many exits were assigned to it.
    pub fn churn_at(&self, epoch: u64) -> (r: u64)
        ensures
            r == spec_lookup(self.entries@, epoch),
    {
        match self.find_epoch_index(epoch) {
            Some(i) => {
                proof {
                    lemma_lookup_first(self.entries@, i as int);
                }
                self.entries[i].1
            },
            None => {
                proof {
                    lemma_lookup_absent(self.entries@, epoch);
                }
                0
            },
        }
    }

    /// Record one exit assigned to `epoch`: increment that epoch's churn and
    /// raise the recorded maximum if needed. Fails only if the counter would
    /// overflow, in which case the cache is unchanged.
    pub fn record_exit(&mut self, epoch: u64) -> (r: Result<(), Error>)
        ensures
            r.is_ok() <==> spec_lookup(old(self).entries@, epoch) + 1 <= u64::MAX,
            r.is_ok() ==> {
                &&& final(self).entries@ == spec_record_entries(old(self).entries@, epoch)
                &&& spec_lookup(final(self).entries@, epoch) == spec_lookup(
                    old(self).entries@,
                    epoch,
                ) + 1
                &&& forall|x: u64| x != epoch ==> spec_lookup(final(self).entries@, x)
                    == spec_lookup(old(self).entries@, x)
                &&& final(self).max_exit_epoch == Some(
                    match old(self).max_exit_epoch {
                        Option::Some(m) => if m >= epoch { m } else { epoch },
                        Option::None => epoch,
                    },
                )
                &&& old(self).wf() ==> final(self).wf()
                &&& forall|limit: u64|
                    spec_churn_bounded(old(self).entries@, limit) && spec_lookup(
                        old(self).entries@,
                        epoch,
                    ) < limit ==> spec_churn_bounded(final(self).entries@, limit)
            },
            r.is_err() ==> *final(self) == *old(self) && r == Result::<(), Error>::Err(
                Error::ArithmeticError,
            ),
    {
        let ghost pre = *self;
        match self.find_epoch_index(epoch) {
            Some(idx) => {
                proof {
                    lemma_lookup_first(self.entries@, idx as int);
                }
                let count = self.entries[idx].1;
                match count.checked_add(1) {
                    Some(next) => {
                        self.entries.set(idx, (epoch, next));
                        proof {
                            assert(self.entries@
                                =~= pre.entries@.update(idx as int, (pre.entries@[idx as int].0, next)));
                            lemma_record_entries_found(pre.entries@, idx as int);
                            assert forall|x: u64| true implies #[trigger] spec_lookup(
                                self.entries@,
                                x,
                            ) == if x == epoch {
                                next
                            } else {
                                spec_lookup(pre.entries@, x)
                            } by {
                                lemma_lookup_update(pre.entries@, idx as int, next, x);
                            }
                        }
                        // An epoch that already has an entry cannot raise the maximum of a
                        // well-formed cache, but recompute it so the stored maximum never
                        // depends on the caller.
                        match self.max_exit_epoch {
                            Some(m) => {
                                if epoch > m {
                                    self.max_exit_epoch = Some(epoch);
                                }
                            },
                            None => {
                                self.max_exit_epoch = Some(epoch);
                            },
                        }
                        proof {
                            assert(forall|k: int| 0 <= k < self.entries@.len()
                                ==> #[trigger] self.entries@[k].0 == pre.entries@[k].0);
                            if pre.wf() {
                                let m = pre.max_exit_epoch->Some_0;
                                assert(pre.max_exit_epoch is Some);
                                assert(epoch <= m);
                                let w = choose|w: int|
                                    0 <= w < pre.entries@.len() && pre.entries@[w].0 == m;
                                assert(self.entries@[w].0 == m);
                                assert(spec_has_epoch(self.entries@, m));
                                assert(self.wf());
                            }
                            assert forall|limit: u64|
                                spec_churn_bounded(pre.entries@, limit) && spec_lookup(
                                    pre.entries@,
                                    epoch,
                                ) < limit implies spec_churn_bounded(self.entries@, limit) by {
                                assert(forall|k: int| 0 <= k < self.entries@.len() && k != idx
                                    ==> #[trigger] self.entries@[k].1 == pre.entries@[k].1);
                            }
                        }
                        Ok(())
                    },
                    None => Err(Error::ArithmeticError),
                }
            },
            None => {
                proof {
                    lemma_lookup_absent(self.entries@, epoch);
                    assert(!spec_has_epoch(self.entries@, epoch));
                    lemma_record_entries_absent(self.entries@, epoch);
                }
                self.entries.push((epoch, 1));
                proof {
                    assert forall|x: u64| true implies #[trigger] spec_lookup(self.entries@, x)
                        == if x == epoch {
                        1u64
                    } else {
                        spec_lookup(pre.entries@, x)
                    } by {
                        lemma_lookup_push(pre.entries@, (epoch, 1u64), x);
                        if x != epoch && !spec_has_epoch(pre.entries@, x) {
                            lemma_lookup_absent(pre.entries@, x);
                        }
                    }
                    assert(self.entries@[self.entries@.len() - 1].0 == epoch);
                }
                match self.max_exit_epoch {
                    Some(m) => {
                        if epoch > m {
                            self.max_exit_epoch = Some(epoch);
                        }
                    },
                    None => {
                        self.max_exit_epoch = Some(epoch);
                    },
                }
                proof {
                    assert(forall|k: int| 0 <= k < pre.entries@.len()
                        ==> #[trigger] self.entries@[k] == pre.entries@[k]);
                    if pre.wf() {
                        assert(spec_has_epoch(self.entries@, self.max_exit_epoch->Some_0)) by {
                            let m = self.max_exit_epoch->Some_0;
                            if m == epoch {
                                assert(self.entries@[self.entries@.len() - 1].0 == m);
                            } else {
                                let i = choose|i: int|
                                    0 <= i < pre.entries@.len() && pre.entries@[i].0 == m;
                                assert(self.entries@[i].0 == m);
                            }
                        }
                        assert(self.wf());
                    }
                    assert forall|limit: u64|
                        spec_churn_bounded(pre.entries@, limit) && spec_lookup(
                            pre.entries@,
                            epoch,
                        ) < limit implies spec_churn_bounded(self.entries@, limit) by {
                        assert(forall|k: int| 0 <= k < self.entries@.len() - 1
                            ==> #[trigger] self.entries@[k].1 == pre.entries@[k].1);
                        assert(self.entries@[self.entries@.len() - 1].1 == 1u64);
                    }
                }
                Ok(())
            },
        }
    }
}

/// Aggregate attesting-balance sums per participation flag, kept consistent
/// incrementally as effective balances change.
#[derive(Clone, Debug)]
pub struct ProgressiveBalancesCache {
    /// Previous-epoch unslashed attesting balance per flag.
    pub previous_epoch_flag_balances: Vec<u64>,
    /// Current-epoch unslashed attesting balance per flag.
    pub current_epoch_flag_balances: Vec<u64>,
}

impl ProgressiveBalancesCache {
    /// One balance sum per participation flag, in both epochs.
    pub open spec fn wf(&self) -> bool {
        self.previous_epoch_flag_balances@.len() == NUM_FLAG_INDICES
            && self.current_epoch_flag_balances@.len() == NUM_FLAG_INDICES
    }

    /// Whether an effective-balance change of an unslashed validator with
    /// `bits` as current participation touches the sum of `flag_index`.
    pub open spec fn spec_flag_affected(slashed: bool, bits: u8, flag_index: usize) -> bool {
        !slashed && spec_has_flag(bits, flag_index)
    }

    /// The previous-epoch unslashed attesting balance for `flag_index`.
    pub fn previous_epoch_flag_attesting_balance(&self, flag_index: usize) -> (r: Result<
        u64,
        Error,
    >)
        ensures
            flag_index < self.previous_epoch_flag_balances@.len() ==> r == Result::<
                u64,
                Error,
            >::Ok(self.previous_epoch_flag_balances@[flag_index as int]),
            flag_index >= self.previous_epoch_flag_balances@.len() ==> r == Result::<
                u64,
                Error,
            >::Err(Error::InvalidFlagIndex(flag_index)),
    {
        if flag_index < self.previous_epoch_flag_balances.len() {
            Ok(self.previous_epoch_flag_balances[flag_index])
        } else {
            Err(Error::InvalidFlagIndex(flag_index))
        }
    }

    /// Replace `old_balance` by `new_balance` in every current-epoch flag sum
    /// the validator attests to, so the aggregates stay consistent without
    /// recomputation. Fails if a sum would leave the `u64` range; the cache
    /// is then unchanged.
    pub fn on_effective_balance_change(
        &mut self,
        validator_slashed: bool,
        current_epoch_participation: ParticipationFlags,
        old_balance: u64,
        new_balance: u64,
    ) -> (r: Result<(), Error>)
        requires
            old(self).wf(),
        ensures
            r.is_ok() <==> forall|f: usize| f < NUM_FLAG_INDICES
                && Self::spec_flag_affected(
                    validator_slashed,
                    current_epoch_participation.bits,
                    f,
                ) ==> 0 <= old(self).current_epoch_flag_balances@[f as int] - old_balance
                + new_balance <= u64::MAX,
            r.is_ok() ==> {
                &&& final(self).wf()
                &&& final(self).previous_epoch_flag_balances@
                    == old(self).previous_epoch_flag_balances@
                &&& forall|f: usize| f < NUM_FLAG_INDICES
                    ==> final(self).current_epoch_flag_balances@[f as int]
                    == if Self::spec_flag_affected(
                    validator_slashed,
                    current_epoch_participation.bits,
                    f,
                ) {
                    (old(self).current_epoch_flag_balances@[f as int] - old_balance
                        + new_balance) as u64
                } else {
                    old(self).current_epoch_flag_balances@[f as int]
                }
            },
            r.is_err() ==> *final(self) == *old(self) && r == Result::<(), Error>::Err(
                Error::ArithmeticError,
            ),
    {
        let mut updated: Vec<u64> = Vec::new();
        let mut f: usize = 0;
        while f < NUM_FLAG_INDICES
            invariant
                old(self).wf(),
                *self == *old(self),
                f <= NUM_FLAG_INDICES,
                updated@.len() == f,
                forall|g: usize| g < f
                    ==> 0 <= old(self).current_epoch_flag_balances@[g as int] - old_balance
                        + new_balance <= u64::MAX
                    || !Self::spec_flag_affected(
                    validator_slashed,
                    current_epoch_participation.bits,
                    g,
                ),
                forall|g: usize| g < f ==> #[trigger] updated@[g as int]
                    == if Self::spec_flag_affected(
                    validator_slashed,
                    current_epoch_participation.bits,
                    g,
                ) {
                    (old(self).current_epoch_flag_balances@[g as int] - old_balance
                        + new_balance) as u64
                } else {
                    old(self).current_epoch_flag_balances@[g as int]
                },
            decreases NUM_FLAG_INDICES - f,
        {
            let current = self.current_epoch_flag_balances[f];
            let affected = !validator_slashed && match current_epoch_participation.has_flag(f) {
                Ok(b) => b,
                Err(e) => {
                    return Err(e);
                },
            };
            if affected {
                let adjusted = if new_balance >= old_balance {
                    current.checked_add(new_balance - old_balance)
                } else {
                    current.checked_sub(old_balance - new_balance)
                };
                match adjusted {
                    Some(v) => updated.push(v),
                    None => {
                        proof {
                            assert(Self::spec_flag_affected(
                                validator_slashed,
                                current_epoch_participation.bits,
                                f,
                            ));
                            assert(!(0 <= old(self).current_epoch_flag_balances@[f as int]
                                - old_balance + new_balance <= u64::MAX));
                        }
                        return Err(Error::ArithmeticError);
                    },
                }
            } else {
                updated.push(current);
            }
            f = f + 1;
        }
        self.current_epoch_flag_balances = updated;
        Ok(())
    }
}

/// Precomputed per-validator base rewards and the current epoch's bounded
/// activation queue, both derived from the pre-transition state by a
/// collaborator.
#[derive(Clone, Debug)]
pub struct EpochCache {
    /// Base reward per validator index.
    pub base_rewards: Vec<u64>,
    /// Indices eligible for activation this epoch, bounded by the activation
    /// churn limit and the finalized checkpoint.
    pub activation_queue: Vec<usize>,
}

impl EpochCache {
    /// The base reward of the validator at `index`.
    pub fn get_base_reward(&self, index: usize) -> (r: Result<u64, Error>)
        ensures
            index < self.base_rewards@.len() ==> r == Result::<u64, Error>::Ok(
                self.base_rewards@[index as int],
            ),
            index >= self.base_rewards@.len() ==> r == Result::<u64, Error>::Err(
                Error::UnknownValidatorIndex(index),
            ),
    {
        if index < self.base_rewards.len() {
            Ok(self.base_rewards[index])
        } else {
            Err(Error::UnknownValidatorIndex(index))
        }
    }

    /// Whether `index` is in this epoch's activation queue.
    pub fn activation_queue_contains(&self, index: usize) -> (r: bool)
        ensures
            r == self.activation_queue@.contains(index),
    {
        let n = self.activation_queue.len();
        let mut i: usize = 0;
        while i < n
            invariant
                n == self.activation_queue@.len(),
                i <= n,
                forall|j: int| 0 <= j < i ==> self.activation_queue@[j] != index,
            decreases n - i,
        {
            if self.activation_queue[i] == index {
                assert(self.activation_queue@[i as int] == index);
                return true;
            }
            i = i + 1;
        }
        assert(!self.activation_queue@.contains(index));
        false
    }
}

/// The next epoch's effective balances, accumulated in index order during
/// the pass and handed to the collaborator that builds the next epoch cache.
#[derive(Clone, Debug)]
pub struct PreEpochCache {
    /// Effective balances in validator-index order.
    pub effective_balances: Vec<u64>,
}

impl PreEpochCache {
    /// An empty accumulator for the next epoch's effective balances.
    pub fn new_for_next_epoch() -> (r: PreEpochCache)
        ensures
            r.effective_balances@.len() == 0,
    {
        PreEpochCache { effective_balances: Vec::new() }
    }

    /// Append the next validator's effective balance, in index order.
    pub fn push_effective_balance(&mut self, effective_balance: u64)
        ensures
            final(self).effective_balances@ == old(self).effective_balances@.push(
                effective_balance,
            ),
    {
        self.effective_balances.push(effective_balance);
    }
}

/// The next epoch's speculative activation queue, keyed by validator index
/// and built during the same pass.
#[derive(Clone, Debug)]
pub struct ActivationQueue {
    /// `(activation_eligibility_epoch, validator_index)` for every validator
    /// that could become eligible for activation next epoch.
    pub queue: Vec<(u64, usize)>,
}

impl ActivationQueue {
    /// An empty speculative queue.
    pub fn new() -> (r: ActivationQueue)
        ensures
            r.queue@.len() == 0,
    {
        ActivationQueue { queue: Vec::new() }
    }

    /// Offer `validator` to the queue: record it exactly when it could
    /// become eligible for activation at `next_epoch`.
    pub fn add_if_could_be_eligible_for_activation(
        &mut self,
        index: usize,
        validator: &Validator,
        next_epoch: u64,
        spec: &ChainSpec,
    )
        ensures
            validator.spec_could_be_eligible_for_activation_at(next_epoch, spec)
                ==> final(self).queue@
                == old(self).queue@.push((validator.activation_eligibility_epoch, index)),
            !validator.spec_could_be_eligible_for_activation_at(next_epoch, spec)
                ==> *final(self) == *old(self),
    {
        if validator.could_be_eligible_for_activation_at(next_epoch, spec) {
            self.queue.push((validator.activation_eligibility_epoch, index));
        }
    }
}

} // verus!
