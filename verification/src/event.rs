//! The audit records.

use vstd::prelude::*;
use crate::fee::FeeSplit;
use crate::guard::SendTip;
use crate::identity::Identity;

verus! {

/// The record of a tip that went through.
#[derive(Clone, Copy, Debug, PartialEq, Eq)]
pub struct TipSent {
    /// Who paid.
    pub tipper: Identity,
    /// Who received the tip.
    pub creator: Identity,
    /// The whole tip.
    pub total_amount: u64,
    /// What the platform kept.
    pub platform_fee: u64,
    /// What the creator received.
    pub creator_amount: u64,
    /// When, in seconds, by the host's clock.
    pub timestamp: i64,
}

/// The record of a memo that came with a tip.
#[derive(Debug, PartialEq, Eq)]
pub struct TipWithMemo {
    /// Who paid.
    pub tipper: Identity,
    /// Who was to receive the tip.
    pub creator: Identity,
    /// The tip as it was asked for.
    pub amount: u64,
    /// The memo, of at most `MAX_MEMO_LEN` bytes.
    pub memo: String,
    /// When, in seconds, by the host's clock.
    pub timestamp: i64,
}

/// The record of a tip between `accounts`, split as `split`, stamped `now`.
pub open spec fn tip_record(accounts: SendTip, split: FeeSplit, now: i64) -> TipSent {
    TipSent {
        tipper: accounts.tipper@,
        creator: accounts.creator,
        total_amount: split.total,
        platform_fee: split.platform_fee,
        creator_amount: split.creator_amount,
        timestamp: now,
    }
}

/// The record of `memo`, sent along with a tip of `amount`, stamped `now`.
pub open spec fn memo_record(accounts: SendTip, amount: u64, memo: String, now: i64) -> TipWithMemo {
    TipWithMemo { tipper: accounts.tipper@, creator: accounts.creator, amount, memo, timestamp: now }
}

impl TipSent {
    /// Writes the record of a tip.
    pub fn new(accounts: &SendTip, split: &FeeSplit, now: i64) -> (record: TipSent)
        ensures
            record == tip_record(*accounts, *split, now),
    {
        TipSent {
            tipper: accounts.tipper.key(),
            creator: accounts.creator,
            total_amount: split.total,
            platform_fee: split.platform_fee,
            creator_amount: split.creator_amount,
            timestamp: now,
        }
    }
}

impl TipWithMemo {
    /// Writes the record of a memo.
    pub fn new(accounts: &SendTip, amount: u64, memo: String, now: i64) -> (record: TipWithMemo)
        ensures
            record == memo_record(*accounts, amount, memo, now),
    {
        TipWithMemo {
            tipper: accounts.tipper.key(),
            creator: accounts.creator,
            amount,
            memo,
            timestamp: now,
        }
    }
}

} // verus!
