use vstd::prelude::*;

use crate::pubkey::Pubkey;

verus! {

/// An account an instruction names, and what it may do with it.
#[derive(Clone, Copy, Debug)]
pub struct AccountMeta {
    pub pubkey: Pubkey,
    pub is_signer: bool,
    pub is_writable: bool,
}

/// A call into another program: which program, over which accounts, with
/// which payload.
#[derive(Debug)]
pub struct Instruction {
    pub program_id: Pubkey,
    pub accounts: Vec<AccountMeta>,
    pub data: Vec<u8>,
}

/// The key of the memo program, `MemoSq4gqABAXKb96qnH8TysNcWxMyWCqXgDLGmfcHr`.
pub open spec fn memo_program_key() -> Seq<u8> {
    seq![
        5u8, 74, 83, 90, 153, 41, 33, 6, 77, 36, 232, 113, 96, 218, 56, 124,
        124, 53, 181, 221, 188, 146, 187, 129, 228, 31, 168, 64, 65, 5, 68, 141,
    ]
}

/// Whether `ix` asks the memo program to record `text`, signed by `signer`.
pub open spec fn is_memo(ix: Instruction, text: Seq<u8>, signer: Pubkey) -> bool {
    &&& ix.program_id.bytes@ == memo_program_key()
    &&& ix.accounts@ == seq![AccountMeta { pubkey: signer, is_signer: true, is_writable: false }]
    &&& ix.data@ == text
}

/// Relies on spl_memo::build_memo: an instruction for the memo program whose
/// payload is `memo`, with each signer named once, read-only, as a signer.
#[verifier::external_body]
pub(crate) fn build_memo(memo: &[u8], signer: &Pubkey) -> (r: Instruction)
    ensures
        is_memo(r, memo@, *signer),
{
    let key = solana_program::pubkey::Pubkey::new_from_array(signer.bytes);
    let ix = spl_memo::build_memo(memo, &[&key]);
    let accounts = ix.accounts.iter().map(|m| AccountMeta {
        pubkey: Pubkey { bytes: m.pubkey.to_bytes() },
        is_signer: m.is_signer,
        is_writable: m.is_writable,
    }).collect();
    Instruction { program_id: Pubkey { bytes: ix.program_id.to_bytes() }, accounts, data: ix.data }
}

} // verus!
