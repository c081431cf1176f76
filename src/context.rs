use vstd::prelude::*;

use crate::pubkey::Pubkey;

verus! {

/// Why a guard refused a mint.
#[derive(Clone, Copy, Debug, PartialEq, Eq, Structural)]
pub enum GuardError {
    /// The cursor ran past the end of the auxiliary accounts.
    IndexOutOfRange,
    /// A claimed account's key is not the configured one.
    KeyMismatch,
    /// A scratch entry was read that no validation wrote.
    MissingContextKey,
    /// The runtime rejected an outbound call.
    OutboundCallFailed,
}

/// A slot in the context's scratch map, through which a guard passes a value
/// from its validation to its post-mint actions.
#[derive(Clone, Copy, Debug, PartialEq, Eq, Structural)]
pub enum IndexKey {
    /// Where the memo guard found the minter's account.
    MinterAccIndex,
}

/// The value last written under `key` in a scratch log, if any.
pub open spec fn lookup(entries: Seq<(IndexKey, usize)>, key: IndexKey) -> Option<usize>
    decreases entries.len(),
{
    if entries.len() == 0 {
        None
    } else if entries.last().0 == key {
        Some(entries.last().1)
    } else {
        lookup(entries.drop_last(), key)
    }
}

/// How many accounts a run of claims takes in all.
pub open spec fn total(ks: Seq<nat>) -> nat
    decreases ks.len(),
{
    if ks.len() == 0 {
        0
    } else {
        total(ks.drop_last()) + ks.last()
    }
}

/// Guards claim `ks[0]`, `ks[1]`, ... accounts in turn, and `cursors[i]` is the
/// cursor before claim `i` (where that claim starts, as `claim` ensures). Then
/// the cursor ends `total(ks)` past where it began, and the range of indices
/// each claim takes is disjoint from every other claim's.
pub proof fn lemma_claims_disjoint(cursors: Seq<nat>, ks: Seq<nat>)
    requires
        cursors.len() == ks.len() + 1,
        forall|i: int| 0 <= i < ks.len() ==> #[trigger] cursors[i + 1] == cursors[i] + ks[i],
    ensures
        cursors.last() == cursors[0] + total(ks),
        forall|i: int, j: int| 0 <= i < j < ks.len() ==> cursors[i] + ks[i] <= cursors[j],
        forall|i: int, j: int|
            0 <= i < ks.len() && 0 <= j < ks.len() && i != j ==> #[trigger] cursors[i] + ks[i]
                <= #[trigger] cursors[j] || cursors[j] + ks[j] <= cursors[i],
    decreases ks.len(),
{
    if ks.len() > 0 {
        let n = ks.len() - 1;
        let pre_c = cursors.drop_last();
        let pre_k = ks.drop_last();
        assert forall|i: int| 0 <= i < pre_k.len() implies #[trigger] pre_c[i + 1] == pre_c[i]
            + pre_k[i] by {
            assert(cursors[i + 1] == cursors[i] + ks[i]);
        }
        lemma_claims_disjoint(pre_c, pre_k);
        assert(cursors[n + 1] == cursors[n] + ks[n]);
        assert forall|i: int, j: int| 0 <= i < j < ks.len() implies cursors[i] + ks[i]
            <= cursors[j] by {
            if j < n {
                assert(pre_c[i] + pre_k[i] <= pre_c[j]);
            } else if i < n - 1 {
                assert(pre_c[i] + pre_k[i] <= pre_c[n - 1]);
                assert(cursors[n - 1 + 1] == cursors[n - 1] + ks[n - 1]);
            } else {
                assert(cursors[i + 1] == cursors[i] + ks[i]);
            }
        }
    }
}

/// State shared by the guards of one mint: the auxiliary accounts, how many
/// of them are claimed so far, the scratch map, and the running count of the
/// items redeemed from the candy machine.
#[derive(Debug)]
pub struct EvaluationContext {
    /// Keys of the accounts supplied beyond the instruction's fixed ones.
    pub remaining: Vec<Pubkey>,
    /// Index of the first auxiliary account no guard has claimed yet.
    pub account_cursor: usize,
    /// Scratch entries in the order written; a later entry hides an earlier
    /// one under the same key.
    pub indices: Vec<(IndexKey, usize)>,
    /// Items redeemed from the candy machine, the mint included.
    pub items_redeemed: u64,
}

impl EvaluationContext {
    /// The value stored under `key`, if any.
    pub open spec fn index_of(&self, key: IndexKey) -> Option<usize> {
        lookup(self.indices@, key)
    }

    pub fn new(remaining: Vec<Pubkey>, items_redeemed: u64) -> (r: EvaluationContext)
        ensures
            r.remaining == remaining,
            r.account_cursor == 0,
            r.indices@ == Seq::<(IndexKey, usize)>::empty(),
            r.items_redeemed == items_redeemed,
    {
        EvaluationContext { remaining, account_cursor: 0, indices: Vec::new(), items_redeemed }
    }

    /// Claims the next `n` auxiliary accounts: returns the index of the first
    /// and moves the cursor past them. Fails, changing nothing, when fewer
    /// than `n` remain.
    pub fn claim(&mut self, n: usize) -> (r: Result<usize, GuardError>)
        ensures
            old(self).account_cursor + n <= old(self).remaining@.len() ==> {
                &&& r == Ok::<usize, GuardError>(old(self).account_cursor)
                &&& final(self).account_cursor == old(self).account_cursor + n
                &&& final(self).remaining == old(self).remaining
                &&& final(self).indices == old(self).indices
                &&& final(self).items_redeemed == old(self).items_redeemed
            },
            old(self).account_cursor + n > old(self).remaining@.len() ==> {
                &&& r == Err::<usize, GuardError>(GuardError::IndexOutOfRange)
                &&& *final(self) == *old(self)
            },
    {
        let start = self.account_cursor;
        if n > self.remaining.len() || start > self.remaining.len() - n {
            return Err(GuardError::IndexOutOfRange);
        }
        self.account_cursor = start + n;
        Ok(start)
    }

    /// The key of the auxiliary account at `index`.
    pub fn account(&self, index: usize) -> (r: Result<Pubkey, GuardError>)
        ensures
            index < self.remaining@.len() ==> r == Ok::<Pubkey, GuardError>(
                self.remaining@[index as int],
            ),
            index >= self.remaining@.len() ==> r == Err::<Pubkey, GuardError>(
                GuardError::IndexOutOfRange,
            ),
    {
        if index < self.remaining.len() {
            Ok(self.remaining[index])
        } else {
            Err(GuardError::IndexOutOfRange)
        }
    }

    /// Stores `value` under `key`, hiding what was stored there before.
    pub fn insert_index(&mut self, key: IndexKey, value: usize)
        ensures
            final(self).indices@ == old(self).indices@.push((key, value)),
            final(self).remaining == old(self).remaining,
            final(self).account_cursor == old(self).account_cursor,
            final(self).items_redeemed == old(self).items_redeemed,
            final(self).index_of(key) == Some(value),
            forall|k: IndexKey| k != key ==> final(self).index_of(k) == old(self).index_of(k),
    {
        self.indices.push((key, value));
        proof {
            assert(self.indices@.drop_last() =~= old(self).indices@);
        }
    }

    /// The value stored under `key`.
    pub fn get_index(&self, key: IndexKey) -> (r: Result<usize, GuardError>)
        ensures
            self.index_of(key) matches Some(v) ==> r == Ok::<usize, GuardError>(v),
            self.index_of(key) is None ==> r == Err::<usize, GuardError>(
                GuardError::MissingContextKey,
            ),
    {
        let mut i: usize = self.indices.len();
        while i > 0
            invariant
                i <= self.indices@.len(),
                lookup(self.indices@, key) == lookup(self.indices@.take(i as int), key),
            decreases i,
        {
            let entry = self.indices[i - 1];
            proof {
                assert(self.indices@.take(i as int).drop_last() =~= self.indices@.take(i - 1));
            }
            if entry.0 == key {
                return Ok(entry.1);
            }
            i = i - 1;
        }
        Err(GuardError::MissingContextKey)
    }
}

} // verus!
