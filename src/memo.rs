use vstd::prelude::*;
use vstd::string::StringSliceAdditionalSpecFns;

use crate::context::{EvaluationContext, GuardError, IndexKey};
use crate::guard_type::GuardType;
use crate::instruction::{build_memo, is_memo, Instruction};
use crate::pubkey::{base58_of, to_base58, Pubkey};

verus! {

/// The decimal digits of `n` as ASCII bytes, most significant first.
pub open spec fn decimal(n: nat) -> Seq<u8>
    decreases n,
{
    if n < 10 {
        seq![(48 + n) as u8]
    } else {
        decimal(n / 10).push((48 + n % 10) as u8)
    }
}

/// The note on how many items the candy machine has minted.
pub open spec fn items_minted_text(items_redeemed: nat) -> Seq<u8> {
    "Items minted from CM -> ".spec_bytes() + decimal(items_redeemed)
}

/// The note on who minted last, given the minter's key as text.
pub open spec fn minted_by_text(encoded_minter: Seq<char>) -> Seq<u8> {
    "Latest items minted by -> ".spec_bytes() + vstd::utf8::encode_utf8(encoded_minter)
}

/// The bytes of `s`, in a vector of their own.
fn bytes_of(s: &str) -> (r: Vec<u8>)
    ensures
        r@ == s.spec_bytes(),
{
    let b = s.as_bytes();
    let mut r: Vec<u8> = Vec::new();
    let mut i: usize = 0;
    while i < b.len()
        invariant
            i <= b@.len(),
            b@ == s.spec_bytes(),
            r@ == b@.take(i as int),
        decreases b@.len() - i,
    {
        r.push(b[i]);
        i = i + 1;
        proof {
            assert(r@ =~= b@.take(i as int));
        }
    }
    proof {
        assert(r@ =~= b@);
    }
    r
}

/// `n` in decimal, as ASCII bytes.
pub fn decimal_digits(n: u64) -> (r: Vec<u8>)
    ensures
        r@ == decimal(n as nat),
{
    let mut m: u64 = n;
    let mut r: Vec<u8> = Vec::new();
    loop
        invariant
            decimal(n as nat) == decimal(m as nat) + r@,
        decreases m,
    {
        let d: u8 = (m % 10) as u8;
        let ghost before = r@;
        r.insert(0, 48 + d);
        proof {
            assert(r@ =~= seq![(48 + m % 10) as u8] + before);
        }
        if m < 10 {
            proof {
                assert(decimal(m as nat) =~= seq![(48 + m % 10) as u8]);
            }
            return r;
        }
        proof {
            assert(decimal(m as nat) == decimal((m / 10) as nat).push((48 + m % 10) as u8));
            assert(decimal(m as nat) + before =~= decimal((m / 10) as nat) + r@);
        }
        m = m / 10;
    }
}

/// The note on how many items the candy machine has minted.
pub fn items_minted_record(items_redeemed: u64) -> (r: Vec<u8>)
    ensures
        r@ == items_minted_text(items_redeemed as nat),
{
    let mut r = bytes_of("Items minted from CM -> ");
    let mut digits = decimal_digits(items_redeemed);
    r.append(&mut digits);
    r
}

/// The note on who minted last, given the minter's key as text.
pub fn minted_by_record(encoded_minter: &str) -> (r: Vec<u8>)
    ensures
        r@ == minted_by_text(encoded_minter@),
{
    let mut r = bytes_of("Latest items minted by -> ");
    let mut key = bytes_of(encoded_minter);
    r.append(&mut key);
    r
}

/// The two memo instructions recorded after a mint: the items minted so far,
/// then who minted, each signed by the minter.
pub fn memo_instructions(
    items_redeemed: u64,
    minter: &Pubkey,
    encoded_minter: &str,
) -> (r: Vec<Instruction>)
    ensures
        r@.len() == 2,
        is_memo(r@[0], items_minted_text(items_redeemed as nat), *minter),
        is_memo(r@[1], minted_by_text(encoded_minter@), *minter),
{
    let items = items_minted_record(items_redeemed);
    let by = minted_by_record(encoded_minter);
    let mut r: Vec<Instruction> = Vec::new();
    r.push(build_memo(items.as_slice(), minter));
    r.push(build_memo(by.as_slice(), minter));
    r
}

/// Guard that records, after each mint, how many items the candy machine has
/// minted and who minted them.
///
/// Accounts it claims:
///
///   0. `[]` The account minting the token; its key must be `minter`.
#[derive(Clone, Copy, Debug)]
pub struct Memo {
    pub minter: Pubkey,
}

/// The minter's account as the post-mint actions find it: the auxiliary
/// account at the index stored under `MinterAccIndex`.
pub open spec fn stored_minter(ctx: &EvaluationContext) -> Option<Pubkey> {
    match ctx.index_of(IndexKey::MinterAccIndex) {
        Some(i) => if i < ctx.remaining@.len() {
            Some(ctx.remaining@[i as int])
        } else {
            None
        },
        None => None,
    }
}

impl Memo {
    /// A successful validation from `before` to `after`: the next auxiliary
    /// account is the minter's; it is claimed and its index stored.
    pub open spec fn validated(&self, before: &EvaluationContext, after: &EvaluationContext) -> bool {
        &&& before.account_cursor < before.remaining@.len()
        &&& before.remaining@[before.account_cursor as int] == self.minter
        &&& after.remaining == before.remaining
        &&& after.items_redeemed == before.items_redeemed
        &&& after.account_cursor == before.account_cursor + 1
        &&& after.indices@ == before.indices@.push(
            (IndexKey::MinterAccIndex, before.account_cursor),
        )
    }

    /// Bytes this guard's configuration takes in a guard set: one key.
    pub fn size() -> (r: usize)
        ensures
            r == 32,
    {
        32
    }

    /// This guard's bit in a guard set's activation mask.
    pub fn mask() -> (r: u64)
        ensures
            r == GuardType::Memo.mask_spec(),
            r == 1,
    {
        proof {
            assert(1u64 << 0u64 == 1) by (bit_vector);
        }
        GuardType::as_mask(GuardType::Memo)
    }

    /// Claims the next auxiliary account, checks that it is the configured
    /// minter, and stores its index for `post_actions`.
    pub fn validate(
        &self,
        ctx: &mut EvaluationContext,
        _mint_args: &[u8],
    ) -> (r: Result<(), GuardError>)
        ensures
            old(ctx).account_cursor >= old(ctx).remaining@.len() ==> {
                &&& r == Err::<(), GuardError>(GuardError::IndexOutOfRange)
                &&& *final(ctx) == *old(ctx)
            },
            old(ctx).account_cursor < old(ctx).remaining@.len()
                && old(ctx).remaining@[old(ctx).account_cursor as int] != self.minter ==> {
                &&& r == Err::<(), GuardError>(GuardError::KeyMismatch)
                &&& final(ctx).account_cursor == old(ctx).account_cursor + 1
                &&& final(ctx).remaining == old(ctx).remaining
                &&& final(ctx).indices == old(ctx).indices
                &&& final(ctx).items_redeemed == old(ctx).items_redeemed
            },
            old(ctx).account_cursor < old(ctx).remaining@.len()
                && old(ctx).remaining@[old(ctx).account_cursor as int] == self.minter ==> {
                &&& r == Ok::<(), GuardError>(())
                &&& self.validated(&*old(ctx), &*final(ctx))
            },
    {
        let index = match ctx.claim(1) {
            Ok(i) => i,
            Err(e) => return Err(e),
        };
        let minter = match ctx.account(index) {
            Ok(k) => k,
            Err(e) => return Err(e),
        };
        if !minter.equals(&self.minter) {
            return Err(GuardError::KeyMismatch);
        }
        ctx.insert_index(IndexKey::MinterAccIndex, index);
        Ok(())
    }

    /// After the mint: finds the minter's account through the index that
    /// `validate` stored and returns the two memo instructions to issue, the
    /// items minted so far and then the minter's key, each signed by the
    /// minter.
    pub fn post_actions(
        &self,
        ctx: &EvaluationContext,
        _mint_args: &[u8],
    ) -> (r: Result<Vec<Instruction>, GuardError>)
        ensures
            ctx.index_of(IndexKey::MinterAccIndex) is None
                ==> r == Err::<Vec<Instruction>, GuardError>(GuardError::MissingContextKey),
            ctx.index_of(IndexKey::MinterAccIndex) is Some && stored_minter(ctx) is None
                ==> r == Err::<Vec<Instruction>, GuardError>(GuardError::IndexOutOfRange),
            stored_minter(ctx) matches Some(m) ==> r matches Ok(ixs) && {
                &&& ixs@.len() == 2
                &&& is_memo(ixs@[0], items_minted_text(ctx.items_redeemed as nat), m)
                &&& is_memo(ixs@[1], minted_by_text(base58_of(m.bytes@)), m)
            },
    {
        let index = match ctx.get_index(IndexKey::MinterAccIndex) {
            Ok(i) => i,
            Err(e) => return Err(e),
        };
        let minter = match ctx.account(index) {
            Ok(k) => k,
            Err(e) => return Err(e),
        };
        let encoded = to_base58(&minter);
        Ok(memo_instructions(ctx.items_redeemed, &minter, encoded.as_str()))
    }
}

/// What `validate` stores, `post_actions` finds: after a successful
/// validation, the post-mint actions resolve the very account that was
/// claimed, the configured minter, wherever other guards have since moved the
/// cursor.
pub proof fn lemma_validate_hands_minter_to_post_actions(
    memo: Memo,
    before: EvaluationContext,
    after: EvaluationContext,
    later: EvaluationContext,
)
    requires
        memo.validated(&before, &after),
        later.remaining == after.remaining,
        later.indices == after.indices,
    ensures
        stored_minter(&later) == Some(before.remaining@[before.account_cursor as int]),
        stored_minter(&later) == Some(memo.minter),
{
    assert(later.indices@.drop_last() =~= before.indices@);
}

} // verus!
