//! What is checked before any value moves.

use vstd::prelude::*;
use vstd::utf8::{encode_scalar, encode_utf8, is_ascii_chars, is_ascii_chars_encode_utf8};
use crate::error::TipError;
use crate::fee::{split_fee, split_of, FeeSplit};
use crate::identity::{Identity, Signer};

verus! {

/// The longest memo that is accepted, in bytes of UTF-8.
pub const MAX_MEMO_LEN: usize = 200;

/// The accounts of one tip.
#[derive(Clone, Copy, Debug, PartialEq, Eq)]
pub struct SendTip {
    /// Who pays, with the host's word that the payer signed the call.
    pub tipper: Signer,
    /// Who receives the tip.
    pub creator: Identity,
    /// The account named as the platform's treasury. It is the caller who
    /// names it, so it is compared with the platform's own on every call.
    pub platform_wallet: Identity,
}

/// The length of `memo` in bytes of UTF-8.
pub open spec fn memo_len(memo: Seq<char>) -> nat {
    encode_utf8(memo).len()
}

/// What `check_platform_wallet` answers.
pub open spec fn wallet_checked(treasury: Identity, accounts: SendTip) -> Result<(), TipError> {
    if accounts.platform_wallet@ == treasury@ {
        Ok(())
    } else {
        Err(TipError::InvalidPlatformWallet)
    }
}

/// What `check_memo` answers.
pub open spec fn memo_checked(memo: Seq<char>) -> Result<(), TipError> {
    if memo_len(memo) <= MAX_MEMO_LEN {
        Ok(())
    } else {
        Err(TipError::MemoTooLong)
    }
}

/// What `validate` answers: the treasury is looked at first, then the amount.
pub open spec fn validated(treasury: Identity, accounts: SendTip, amount: u64) -> Result<
    FeeSplit,
    TipError,
> {
    if accounts.platform_wallet@ != treasury@ {
        Err(TipError::InvalidPlatformWallet)
    } else {
        split_of(amount)
    }
}

/// Accepts the accounts only if the treasury among them is the platform's.
pub fn check_platform_wallet(treasury: &Identity, accounts: &SendTip) -> (r: Result<(), TipError>)
    ensures
        r == wallet_checked(*treasury, *accounts),
{
    if accounts.platform_wallet.same_as(treasury) {
        Ok(())
    } else {
        Err(TipError::InvalidPlatformWallet)
    }
}

/// Accepts a memo of at most `MAX_MEMO_LEN` bytes.
pub fn check_memo(memo: &str) -> (r: Result<(), TipError>)
    ensures
        r == memo_checked(memo@),
{
    if memo.as_bytes().len() <= MAX_MEMO_LEN {
        Ok(())
    } else {
        Err(TipError::MemoTooLong)
    }
}

/// Checks a tip of `amount` between `accounts` and splits it. Nothing has
/// moved when this returns, whatever it returns.
pub fn validate(treasury: &Identity, accounts: &SendTip, amount: u64) -> (r: Result<
    FeeSplit,
    TipError,
>)
    ensures
        r == validated(*treasury, *accounts, amount),
{
    match check_platform_wallet(treasury, accounts) {
        Ok(()) => split_fee(amount),
        Err(e) => Err(e),
    }
}

/// A memo takes at least one byte and at most four for each of its
/// characters, and exactly one for each where all of them are ASCII. So a
/// memo of up to 50 characters always fits, and one of more than 200 never.
pub proof fn memo_len_bounds(memo: Seq<char>)
    ensures
        memo.len() <= memo_len(memo) <= 4 * memo.len(),
        is_ascii_chars(memo) ==> memo_len(memo) == memo.len(),
    decreases memo.len(),
{
    if memo.len() > 0 {
        let first = encode_scalar(memo[0] as u32);
        assert(1 <= first.len() <= 4);
        memo_len_bounds(memo.drop_first());
        assert(encode_utf8(memo).len() == first.len() + encode_utf8(memo.drop_first()).len());
    }
    if is_ascii_chars(memo) {
        is_ascii_chars_encode_utf8(memo);
    }
}

} // verus!
