use candy_guard_memo::memo::{
    decimal_digits, items_minted_record, memo_instructions, minted_by_record,
};
use candy_guard_memo::{EvaluationContext, GuardError, GuardType, IndexKey, Memo, Pubkey};

fn key(b: u8) -> Pubkey {
    Pubkey::new_from_array([b; 32])
}

fn base58(k: &Pubkey) -> String {
    solana_program::pubkey::Pubkey::new_from_array(k.bytes).to_string()
}

fn contains(haystack: &[u8], needle: &[u8]) -> bool {
    haystack.windows(needle.len()).any(|w| w == needle)
}

fn memo_program() -> [u8; 32] {
    spl_memo::id().to_bytes()
}

#[test]
fn end_to_end_scenario() {
    let a = key(3);
    let mut ctx = EvaluationContext::new(vec![a], 7);
    let guard = Memo { minter: a };
    assert_eq!(guard.validate(&mut ctx, &[]), Ok(()));
    assert_eq!(ctx.account_cursor, 1);
    assert_eq!(ctx.get_index(IndexKey::MinterAccIndex), Ok(0));

    let ixs = guard.post_actions(&ctx, &[]).unwrap();
    assert_eq!(ixs.len(), 2);
    assert_eq!(ixs[0].data, b"Items minted from CM -> 7".to_vec());
    assert!(contains(&ixs[0].data, b"7"));
    let expected = format!("Latest items minted by -> {}", base58(&a));
    assert_eq!(ixs[1].data, expected.as_bytes().to_vec());
    assert!(contains(&ixs[1].data, base58(&a).as_bytes()));
    for ix in &ixs {
        assert_eq!(ix.program_id.bytes, memo_program());
        assert_eq!(ix.accounts.len(), 1);
        assert_eq!(ix.accounts[0].pubkey.bytes, a.bytes);
        assert!(ix.accounts[0].is_signer);
        assert!(!ix.accounts[0].is_writable);
    }
}

#[test]
fn end_to_end_failure_scenario() {
    let a = key(3);
    let mut ctx = EvaluationContext::new(vec![a], 7);
    let guard = Memo { minter: key(4) };
    assert_eq!(guard.validate(&mut ctx, &[]), Err(GuardError::KeyMismatch));
    assert_eq!(ctx.get_index(IndexKey::MinterAccIndex), Err(GuardError::MissingContextKey));
    assert!(ctx.indices.is_empty());
}

#[test]
fn mismatch_advances_cursor_by_one() {
    let mut ctx = EvaluationContext::new(vec![key(1), key(2), key(3)], 0);
    ctx.account_cursor = 1;
    let guard = Memo { minter: key(9) };
    assert_eq!(guard.validate(&mut ctx, &[]), Err(GuardError::KeyMismatch));
    assert_eq!(ctx.account_cursor, 2);
}

#[test]
fn mismatch_in_last_byte_is_caught() {
    let mut bytes = [5u8; 32];
    bytes[31] = 6;
    let mut ctx = EvaluationContext::new(vec![Pubkey::new_from_array(bytes)], 0);
    let guard = Memo { minter: key(5) };
    assert_eq!(guard.validate(&mut ctx, &[]), Err(GuardError::KeyMismatch));
    assert_eq!(ctx.account_cursor, 1);
}

#[test]
fn no_accounts_is_index_out_of_range() {
    let mut ctx = EvaluationContext::new(vec![], 7);
    let guard = Memo { minter: key(1) };
    assert_eq!(guard.validate(&mut ctx, &[]), Err(GuardError::IndexOutOfRange));
    assert_eq!(ctx.account_cursor, 0);
    assert!(ctx.indices.is_empty());
    assert!(ctx.remaining.is_empty());
    assert_eq!(ctx.items_redeemed, 7);
}

#[test]
fn cursor_at_end_is_index_out_of_range() {
    let mut ctx = EvaluationContext::new(vec![key(1)], 0);
    ctx.account_cursor = 1;
    let guard = Memo { minter: key(1) };
    assert_eq!(guard.validate(&mut ctx, &[]), Err(GuardError::IndexOutOfRange));
    assert_eq!(ctx.account_cursor, 1);
}

#[test]
fn size_and_mask_are_constant() {
    for _ in 0..3 {
        assert_eq!(Memo::size(), 32);
        assert_eq!(Memo::mask(), 1);
        assert_eq!(Memo::mask(), GuardType::as_mask(GuardType::Memo));
    }
    assert_eq!(Memo::mask().count_ones(), 1);
}

#[test]
fn claims_are_consecutive_and_disjoint() {
    let mut ctx = EvaluationContext::new(vec![key(1), key(2), key(3), key(4), key(5)], 0);
    assert_eq!(ctx.claim(2), Ok(0));
    assert_eq!(ctx.claim(0), Ok(2));
    assert_eq!(ctx.claim(3), Ok(2));
    assert_eq!(ctx.account_cursor, 5);
    assert_eq!(ctx.claim(1), Err(GuardError::IndexOutOfRange));
    assert_eq!(ctx.account_cursor, 5);
    assert_eq!(ctx.claim(0), Ok(5));
}

#[test]
fn claim_of_huge_count_fails() {
    let mut ctx = EvaluationContext::new(vec![key(1)], 0);
    assert_eq!(ctx.claim(usize::MAX), Err(GuardError::IndexOutOfRange));
    assert_eq!(ctx.account_cursor, 0);
}

#[test]
fn guards_in_turn_take_their_own_accounts() {
    let minter = key(8);
    let mut ctx = EvaluationContext::new(vec![key(1), minter, key(3), key(4)], 2);
    assert_eq!(ctx.claim(1), Ok(0));
    let guard = Memo { minter };
    assert_eq!(guard.validate(&mut ctx, &[]), Ok(()));
    assert_eq!(ctx.claim(2), Ok(2));
    assert_eq!(ctx.account_cursor, 4);
    assert_eq!(ctx.get_index(IndexKey::MinterAccIndex), Ok(1));
}

#[test]
fn post_actions_uses_stored_index_not_cursor() {
    let minter = key(8);
    let mut ctx = EvaluationContext::new(vec![key(1), minter, key(3), key(4)], 12);
    ctx.account_cursor = 1;
    let guard = Memo { minter };
    assert_eq!(guard.validate(&mut ctx, &[]), Ok(()));
    ctx.account_cursor = 4;
    let ixs = guard.post_actions(&ctx, &[]).unwrap();
    assert_eq!(ixs[0].data, b"Items minted from CM -> 12".to_vec());
    assert_eq!(ixs[1].accounts[0].pubkey.bytes, minter.bytes);
    ctx.account_cursor = 0;
    let again = guard.post_actions(&ctx, &[]).unwrap();
    assert_eq!(again[1].data, ixs[1].data);
}

#[test]
fn post_actions_without_validate_fails() {
    let ctx = EvaluationContext::new(vec![key(1)], 1);
    let guard = Memo { minter: key(1) };
    assert!(matches!(guard.post_actions(&ctx, &[]), Err(GuardError::MissingContextKey)));
}

#[test]
fn post_actions_with_stale_index_fails() {
    let mut ctx = EvaluationContext::new(vec![key(1)], 1);
    ctx.insert_index(IndexKey::MinterAccIndex, 3);
    let guard = Memo { minter: key(1) };
    assert!(matches!(guard.post_actions(&ctx, &[]), Err(GuardError::IndexOutOfRange)));
}

#[test]
fn later_index_hides_earlier() {
    let mut ctx = EvaluationContext::new(vec![], 0);
    ctx.insert_index(IndexKey::MinterAccIndex, 4);
    ctx.insert_index(IndexKey::MinterAccIndex, 9);
    assert_eq!(ctx.get_index(IndexKey::MinterAccIndex), Ok(9));
}

#[test]
fn account_lookup() {
    let ctx = EvaluationContext::new(vec![key(1), key(2)], 0);
    assert_eq!(ctx.account(1).unwrap().bytes, [2u8; 32]);
    assert!(matches!(ctx.account(2), Err(GuardError::IndexOutOfRange)));
}

#[test]
fn keys_compare_by_bytes() {
    assert!(key(1).equals(&key(1)));
    assert!(!key(1).equals(&key(2)));
}

#[test]
fn decimal_digits_exact() {
    assert_eq!(decimal_digits(0), b"0".to_vec());
    assert_eq!(decimal_digits(7), b"7".to_vec());
    assert_eq!(decimal_digits(10), b"10".to_vec());
    assert_eq!(decimal_digits(1234567890), b"1234567890".to_vec());
    assert_eq!(decimal_digits(u64::MAX), u64::MAX.to_string().into_bytes());
}

#[test]
fn records_exact() {
    assert_eq!(items_minted_record(0), b"Items minted from CM -> 0".to_vec());
    assert_eq!(minted_by_record("abc"), b"Latest items minted by -> abc".to_vec());
    assert_eq!(minted_by_record(""), b"Latest items minted by -> ".to_vec());
}

#[test]
fn memo_instructions_exact() {
    let signer = key(2);
    let ixs = memo_instructions(42, &signer, "xyz");
    assert_eq!(ixs.len(), 2);
    assert_eq!(ixs[0].data, b"Items minted from CM -> 42".to_vec());
    assert_eq!(ixs[1].data, b"Latest items minted by -> xyz".to_vec());
    assert_eq!(ixs[0].program_id.bytes, memo_program());
    assert_eq!(ixs[1].accounts.len(), 1);
    assert_eq!(ixs[1].accounts[0].pubkey.bytes, signer.bytes);
}

#[test]
fn minter_key_is_written_in_base58() {
    let a = key(0);
    let mut ctx = EvaluationContext::new(vec![a], 1);
    let guard = Memo { minter: a };
    guard.validate(&mut ctx, &[]).unwrap();
    let ixs = guard.post_actions(&ctx, &[]).unwrap();
    assert_eq!(ixs[1].data, b"Latest items minted by -> 11111111111111111111111111111111".to_vec());
}
