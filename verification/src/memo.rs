//! A tip with a memo: the tip, and after it the record of the memo.
//!
//! The call is first validated: a wrong treasury or too long a memo abort
//! it. Then the tip is run as `send_tip` runs it. When the tip is over,
//! however it ended, the clock is read once more and the memo's record is
//! written; only then the call is done, with the outcome that the tip had.
//! A record may therefore tell of a tip that moved nothing.

use vstd::prelude::*;
use crate::error::{Failure, TipError};
use crate::event::{memo_record, TipSent, TipWithMemo};
use crate::fee::{split_of, MAX_TIP};
use crate::guard::{
    check_memo, check_platform_wallet, memo_checked, memo_len, wallet_checked, SendTip,
    MAX_MEMO_LEN,
};
use crate::identity::Identity;
use crate::tip::{send_tip, tip_entered, Stamping, TipStep, Transferring};
use crate::transfer::Leg;

verus! {

/// A tip with a memo of which one leg is with the host.
#[derive(Debug, PartialEq, Eq)]
pub struct MemoTransferring {
    /// The tip.
    pub tip: Transferring,
    /// The memo that waits for the tip to be over.
    pub memo: String,
}

/// A tip with a memo for which the clock is being read.
#[derive(Debug, PartialEq, Eq)]
pub enum MemoStamping<E> {
    /// The tip's legs are through, and the time is for the tip's record.
    BaseTipExecuting { tip: Stamping, memo: String },
    /// The tip is over with `outcome`, and the time is for the memo's record.
    MemoEventEmitting {
        accounts: SendTip,
        amount: u64,
        memo: String,
        outcome: Result<(), Failure<E>>,
    },
}

/// What a step of a tip with a memo leaves the host with.
#[derive(Debug, PartialEq, Eq)]
pub enum MemoStep<E> {
    /// The host moves `leg` and hands how it went to
    /// `transferring.transferred`.
    Transfer { transferring: MemoTransferring, leg: Leg },
    /// The host appends `emitted_tip` to the audit channel, if there is one,
    /// reads the clock and hands the time to `stamping.stamped`.
    Time { stamping: MemoStamping<E>, emitted_tip: Option<TipSent> },
    /// The call is over. The host appends `emitted_memo` to the audit
    /// channel, if there is one, and returns `outcome` to the caller.
    Done { emitted_memo: Option<TipWithMemo>, outcome: Result<(), Failure<E>> },
}

/// Where a step of the tip leaves the tip with a memo: while the tip goes
/// on, what it asks for is handed on; once it is over, its outcome is kept,
/// its record handed on, and the clock asked for.
pub open spec fn memo_after<E>(accounts: SendTip, amount: u64, memo: String, step: TipStep<E>)
    -> MemoStep<E> {
    match step {
        TipStep::Transfer { transferring, leg } => MemoStep::Transfer {
            transferring: MemoTransferring { tip: transferring, memo },
            leg,
        },
        TipStep::Time { stamping } => MemoStep::Time {
            stamping: MemoStamping::BaseTipExecuting { tip: stamping, memo },
            emitted_tip: None,
        },
        TipStep::Done { emitted, outcome } => MemoStep::Time {
            stamping: MemoStamping::MemoEventEmitting { accounts, amount, memo, outcome },
            emitted_tip: emitted,
        },
    }
}

/// Wraps a step of the tip into a step of the tip with a memo.
fn after_tip<E>(accounts: SendTip, amount: u64, memo: String, step: TipStep<E>) -> (r: MemoStep<E>)
    ensures
        r == memo_after(accounts, amount, memo, step),
{
    match step {
        TipStep::Transfer { transferring, leg } => MemoStep::Transfer {
            transferring: MemoTransferring { tip: transferring, memo },
            leg,
        },
        TipStep::Time { stamping } => MemoStep::Time {
            stamping: MemoStamping::BaseTipExecuting { tip: stamping, memo },
            emitted_tip: None,
        },
        TipStep::Done { emitted, outcome } => MemoStep::Time {
            stamping: MemoStamping::MemoEventEmitting { accounts, amount, memo, outcome },
            emitted_tip: emitted,
        },
    }
}

impl MemoTransferring {
    /// The tip inside is well formed.
    pub open spec fn wf(&self) -> bool {
        self.tip.wf()
    }

    /// The step that the outcome of the leg leads to: the one that it leads
    /// the tip to, wrapped.
    pub open spec fn after<E>(self, outcome: Result<(), E>) -> MemoStep<E> {
        memo_after(self.tip.accounts, self.tip.split.total, self.memo, self.tip.after(outcome))
    }

    /// Takes how the leg went and says what comes next.
    pub fn transferred<E>(self, outcome: Result<(), E>) -> (step: MemoStep<E>)
        ensures
            step == self.after(outcome),
            self.wf() ==> step.wf(),
    {
        let accounts = self.tip.accounts;
        let amount: u64 = self.tip.split.total;
        let step = self.tip.transferred(outcome);
        after_tip(accounts, amount, self.memo, step)
    }
}

impl<E> MemoStamping<E> {
    /// The tip inside, while there is one, is well formed.
    pub open spec fn wf(&self) -> bool {
        match *self {
            MemoStamping::BaseTipExecuting { tip, memo } => tip.wf(),
            MemoStamping::MemoEventEmitting { .. } => true,
        }
    }

    /// The step that the time leads to.
    ///
    /// Where the time is for the tip, the tip ends well and is recorded, and
    /// the clock is asked for once more. Where it is for the memo, the memo
    /// is recorded and the call ends with the outcome that the tip had.
    pub open spec fn after(self, now: i64) -> MemoStep<E> {
        match self {
            MemoStamping::BaseTipExecuting { tip, memo } => memo_after(
                tip.accounts,
                tip.split.total,
                memo,
                tip.after(now),
            ),
            MemoStamping::MemoEventEmitting { accounts, amount, memo, outcome } => MemoStep::Done {
                emitted_memo: Some(memo_record(accounts, amount, memo, now)),
                outcome,
            },
        }
    }

    /// Takes the time and says what comes next.
    pub fn stamped(self, now: i64) -> (step: MemoStep<E>)
        ensures
            step == self.after(now),
            self.wf() ==> step.wf(),
    {
        match self {
            MemoStamping::BaseTipExecuting { tip, memo } => {
                let accounts = tip.accounts;
                let amount: u64 = tip.split.total;
                let step = tip.stamped(now);
                after_tip(accounts, amount, memo, step)
            },
            MemoStamping::MemoEventEmitting { accounts, amount, memo, outcome } => MemoStep::Done {
                emitted_memo: Some(TipWithMemo::new(&accounts, amount, memo, now)),
                outcome,
            },
        }
    }
}

impl<E> MemoStep<E> {
    /// The tip that is under way, if one is, is well formed, and the leg
    /// that is asked for is the one that is due.
    pub open spec fn wf(&self) -> bool {
        match *self {
            MemoStep::Transfer { transferring, leg } => transferring.wf() && leg
                == transferring.tip.leg(),
            MemoStep::Time { stamping, emitted_tip } => stamping.wf(),
            MemoStep::Done { .. } => true,
        }
    }
}

/// The first step of a tip of `amount` with `memo` between `accounts`, where
/// `treasury` is the platform's own account.
///
/// A wrong treasury, and then a memo that is too long, end the call at once:
/// nothing is asked of the host and nothing is recorded. Otherwise the tip
/// is entered, and what it says is wrapped by `memo_after`: a tip that its
/// own checks refuse still has its memo recorded.
pub open spec fn memo_entered<E>(treasury: Identity, accounts: SendTip, amount: u64, memo: String)
    -> MemoStep<E> {
    if wallet_checked(treasury, accounts) is Err {
        MemoStep::Done {
            emitted_memo: None,
            outcome: Err(Failure::Rejected(TipError::InvalidPlatformWallet)),
        }
    } else if memo_checked(memo@) is Err {
        MemoStep::Done { emitted_memo: None, outcome: Err(Failure::Rejected(TipError::MemoTooLong)) }
    } else {
        memo_after(accounts, amount, memo, tip_entered::<E>(treasury, accounts, amount))
    }
}

/// Starts a tip of `amount` that carries `memo`, a text of at most
/// `MAX_MEMO_LEN` bytes that goes into an audit record of its own.
/// `treasury` is the platform's own account; `E` is the error of the host's
/// transfer primitive.
pub fn send_tip_with_memo<E>(treasury: &Identity, accounts: SendTip, amount: u64, memo: String)
    -> (step: MemoStep<E>)
    ensures
        step == memo_entered::<E>(*treasury, accounts, amount, memo),
        step.wf(),
{
    if let Err(e) = check_platform_wallet(treasury, &accounts) {
        return MemoStep::Done { emitted_memo: None, outcome: Err(Failure::Rejected(e)) };
    }
    if let Err(e) = check_memo(memo.as_str()) {
        return MemoStep::Done { emitted_memo: None, outcome: Err(Failure::Rejected(e)) };
    }
    let step = send_tip(treasury, accounts, amount);
    after_tip(accounts, amount, memo, step)
}

/// A tip with a memo that names another treasury than the platform's is
/// refused for that, whatever its amount and its memo; nothing is asked of
/// the host and nothing is recorded.
pub proof fn wrong_treasury_is_refused_with_memo<E>(
    treasury: Identity,
    accounts: SendTip,
    amount: u64,
    memo: String,
)
    requires
        accounts.platform_wallet@ != treasury@,
    ensures
        memo_entered::<E>(treasury, accounts, amount, memo) == (MemoStep::<E>::Done {
            emitted_memo: None,
            outcome: Err(Failure::Rejected(TipError::InvalidPlatformWallet)),
        }),
{
}

/// A memo of more than `MAX_MEMO_LEN` bytes ends the call before the tip is
/// looked at: no leg is asked for and nothing is recorded. A memo of at most
/// that many bytes never ends the call at once.
pub proof fn long_memo_is_refused<E>(
    treasury: Identity,
    accounts: SendTip,
    amount: u64,
    memo: String,
)
    requires
        accounts.platform_wallet@ == treasury@,
    ensures
        memo_len(memo@) > MAX_MEMO_LEN ==> memo_entered::<E>(treasury, accounts, amount, memo) == (
        MemoStep::<E>::Done {
            emitted_memo: None,
            outcome: Err(Failure::Rejected(TipError::MemoTooLong)),
        }),
        memo_len(memo@) <= MAX_MEMO_LEN ==> !(memo_entered::<E>(treasury, accounts, amount, memo)
            is Done),
{
}

/// A tip that its own checks refuse still has its memo recorded: the clock
/// is asked for first, and with the time the call ends with the memo's
/// record and the tip's refusal. No leg is asked for.
pub proof fn memo_of_a_refused_tip_is_recorded<E>(
    treasury: Identity,
    accounts: SendTip,
    amount: u64,
    memo: String,
    now: i64,
)
    requires
        accounts.platform_wallet@ == treasury@,
        memo_len(memo@) <= MAX_MEMO_LEN,
        amount == 0 || amount > MAX_TIP,
    ensures
        ({
            let first = memo_entered::<E>(treasury, accounts, amount, memo);
            &&& first is Time
            &&& first->emitted_tip is None
            &&& first->stamping.after(now) == (MemoStep::<E>::Done {
                emitted_memo: Some(
                    TipWithMemo {
                        tipper: accounts.tipper@,
                        creator: accounts.creator,
                        amount,
                        memo,
                        timestamp: now,
                    },
                ),
                outcome: Err(
                    Failure::Rejected(
                        if amount == 0 {
                            TipError::InvalidAmount
                        } else {
                            TipError::MathOverflow
                        },
                    ),
                ),
            })
        }),
{
}

/// Where a leg fails, the tip with a memo reads the clock and ends with the
/// memo's record and with the primitive's error as it came. The tip itself
/// is not recorded.
pub proof fn memo_of_a_failed_tip_is_recorded<E>(
    transferring: MemoTransferring,
    error: E,
    now: i64,
)
    ensures
        ({
            let step = transferring.after(Err(error));
            &&& step is Time
            &&& step->emitted_tip is None
            &&& step->stamping.after(now) == (MemoStep::<E>::Done {
                emitted_memo: Some(
                    TipWithMemo {
                        tipper: transferring.tip.accounts.tipper@,
                        creator: transferring.tip.accounts.creator,
                        amount: transferring.tip.split.total,
                        memo: transferring.memo,
                        timestamp: now,
                    },
                ),
                outcome: Err(Failure::Transfer(error)),
            })
        }),
{
}

/// A tip with a memo that passes all checks runs as follows while every leg
/// goes through: the two legs as for a tip without a memo; the clock, and
/// with its time the tip's record; the clock once more, and with its time
/// the memo's record and a good end.
pub proof fn tip_with_memo_goes_through<E>(
    treasury: Identity,
    accounts: SendTip,
    amount: u64,
    memo: String,
    tip_time: i64,
    memo_time: i64,
)
    requires
        accounts.platform_wallet@ == treasury@,
        memo_len(memo@) <= MAX_MEMO_LEN,
        1 <= amount <= MAX_TIP,
    ensures
        ({
            let split = split_of(amount)->Ok_0;
            let first = memo_entered::<E>(treasury, accounts, amount, memo);
            let second = first->transferring.after::<E>(Ok(()));
            let third = second->transferring.after::<E>(Ok(()));
            let fourth = third->stamping.after(tip_time);
            let last = fourth->stamping.after(memo_time);
            &&& first is Transfer
            &&& first->leg == Leg {
                from: accounts.tipper@,
                to: accounts.platform_wallet,
                lamports: split.platform_fee,
            }
            &&& second is Transfer
            &&& second->leg == Leg {
                from: accounts.tipper@,
                to: accounts.creator,
                lamports: split.creator_amount,
            }
            &&& third is Time
            &&& third->emitted_tip is None
            &&& fourth is Time
            &&& fourth->emitted_tip == Some(
                TipSent {
                    tipper: accounts.tipper@,
                    creator: accounts.creator,
                    total_amount: amount,
                    platform_fee: split.platform_fee,
                    creator_amount: split.creator_amount,
                    timestamp: tip_time,
                },
            )
            &&& last == (MemoStep::<E>::Done {
                emitted_memo: Some(
                    TipWithMemo {
                        tipper: accounts.tipper@,
                        creator: accounts.creator,
                        amount,
                        memo,
                        timestamp: memo_time,
                    },
                ),
                outcome: Ok(()),
            })
        }),
{
}

/// Once a tip with a memo is under way, it never ends without the memo's
/// record: a leg's outcome never ends the call, and the time ends it only
/// with the record.
pub proof fn memo_is_always_recorded<E>(
    transferring: MemoTransferring,
    stamping: MemoStamping<E>,
    outcome: Result<(), E>,
    now: i64,
)
    ensures
        !(transferring.after(outcome) is Done),
        stamping.after(now) matches MemoStep::Done { emitted_memo, outcome: ended } ==> {
            &&& emitted_memo is Some
            &&& stamping matches MemoStamping::MemoEventEmitting { outcome: kept, .. }
            &&& ended == kept
        },
{
}

} // verus!
