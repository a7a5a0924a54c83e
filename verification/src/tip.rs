//! The tip itself: two transfers and one audit record.
//!
//! The library moves no value and reads no clock. `send_tip` checks the tip
//! and says what the host is to do first; the host does it and hands the
//! outcome to the flow that came with the step, which says what is next,
//! until the call is done. Every flow is used up by its one answer, so no
//! leg is asked for twice. The host runs a call as one transaction: where
//! the call fails, it undoes what was moved.

use vstd::prelude::*;
use crate::error::{Failure, TipError};
use crate::event::{tip_record, TipSent};
use crate::fee::{split_of, FeeSplit, MAX_TIP, PLATFORM_FEE_BPS};
use crate::guard::{validate, validated, SendTip};
use crate::identity::Identity;
use crate::transfer::{creator_leg, creator_leg_of, platform_leg, platform_leg_of, Leg};

verus! {

/// Which of the two legs of a tip.
#[derive(Clone, Copy, Debug, PartialEq, Eq)]
pub enum LegKind {
    /// The fee, to the treasury. It goes first.
    Platform,
    /// The rest, to the creator.
    Creator,
}

/// A tip of which one leg is with the host.
#[derive(Debug, PartialEq, Eq)]
pub struct Transferring {
    /// The accounts of the tip.
    pub accounts: SendTip,
    /// The tip, taken apart.
    pub split: FeeSplit,
    /// The leg that is with the host.
    pub kind: LegKind,
}

/// A tip of which both legs are through and whose time is being read.
#[derive(Debug, PartialEq, Eq)]
pub struct Stamping {
    /// The accounts of the tip.
    pub accounts: SendTip,
    /// The tip, taken apart.
    pub split: FeeSplit,
}

/// What a step of a tip leaves the host with.
#[derive(Debug, PartialEq, Eq)]
pub enum TipStep<E> {
    /// The host moves `leg` and hands how it went to
    /// `transferring.transferred`.
    Transfer { transferring: Transferring, leg: Leg },
    /// The host reads the clock and hands the time to `stamping.stamped`.
    Time { stamping: Stamping },
    /// The call is over. The host appends `emitted` to the audit channel, if
    /// there is one, and returns `outcome` to the caller.
    Done { emitted: Option<TipSent>, outcome: Result<(), Failure<E>> },
}

/// The step that asks for the leg `kind` of a tip.
pub open spec fn leg_asked<E>(accounts: SendTip, split: FeeSplit, kind: LegKind) -> TipStep<E> {
    let transferring = Transferring { accounts, split, kind };
    TipStep::Transfer { transferring, leg: transferring.leg() }
}

impl Transferring {
    /// The split is the one that its total has.
    pub open spec fn wf(&self) -> bool {
        split_of(self.split.total) == Ok::<FeeSplit, TipError>(self.split)
    }

    /// The leg that is with the host.
    pub open spec fn leg(&self) -> Leg {
        match self.kind {
            LegKind::Platform => platform_leg_of(self.accounts, self.split),
            LegKind::Creator => creator_leg_of(self.accounts, self.split),
        }
    }

    /// The step that the outcome of the leg leads to.
    ///
    /// After the platform's leg comes the creator's, after the creator's the
    /// clock. A leg that failed ends the call with the primitive's own error,
    /// and nothing is recorded.
    pub open spec fn after<E>(self, outcome: Result<(), E>) -> TipStep<E> {
        match outcome {
            Err(e) => TipStep::Done { emitted: None, outcome: Err(Failure::Transfer(e)) },
            Ok(()) => match self.kind {
                LegKind::Platform => leg_asked(self.accounts, self.split, LegKind::Creator),
                LegKind::Creator => TipStep::Time {
                    stamping: Stamping { accounts: self.accounts, split: self.split },
                },
            },
        }
    }

    /// Takes how the leg went and says what comes next.
    pub fn transferred<E>(self, outcome: Result<(), E>) -> (step: TipStep<E>)
        ensures
            step == self.after(outcome),
            self.wf() ==> step.wf(),
    {
        match outcome {
            Err(e) => TipStep::Done { emitted: None, outcome: Err(Failure::Transfer(e)) },
            Ok(()) => match self.kind {
                LegKind::Platform => ask_leg(self.accounts, self.split, LegKind::Creator),
                LegKind::Creator => TipStep::Time {
                    stamping: Stamping { accounts: self.accounts, split: self.split },
                },
            },
        }
    }
}

impl Stamping {
    /// The split is the one that its total has.
    pub open spec fn wf(&self) -> bool {
        split_of(self.split.total) == Ok::<FeeSplit, TipError>(self.split)
    }

    /// The step that the time leads to: the call ends well, with the record
    /// of the tip, stamped with that time.
    pub open spec fn after<E>(self, now: i64) -> TipStep<E> {
        TipStep::Done { emitted: Some(tip_record(self.accounts, self.split, now)), outcome: Ok(()) }
    }

    /// Takes the time and ends the call.
    pub fn stamped<E>(self, now: i64) -> (step: TipStep<E>)
        ensures
            step == self.after::<E>(now),
    {
        TipStep::Done { emitted: Some(TipSent::new(&self.accounts, &self.split, now)), outcome: Ok(()) }
    }
}

impl<E> TipStep<E> {
    /// The tip that is under way, if one is, is well formed, and the leg
    /// that is asked for is the one that is due.
    pub open spec fn wf(&self) -> bool {
        match *self {
            TipStep::Transfer { transferring, leg } => transferring.wf() && leg
                == transferring.leg(),
            TipStep::Time { stamping } => stamping.wf(),
            TipStep::Done { .. } => true,
        }
    }
}

/// Asks for the leg `kind` of a tip.
fn ask_leg<E>(accounts: SendTip, split: FeeSplit, kind: LegKind) -> (step: TipStep<E>)
    ensures
        step == leg_asked::<E>(accounts, split, kind),
{
    let leg = match kind {
        LegKind::Platform => platform_leg(&accounts, &split),
        LegKind::Creator => creator_leg(&accounts, &split),
    };
    TipStep::Transfer { transferring: Transferring { accounts, split, kind }, leg }
}

/// The first step of a tip of `amount` between `accounts`, where `treasury`
/// is the platform's own account.
///
/// A tip that fails the checks is over at once, with the reason and with
/// nothing asked of the host. Any other starts with the platform's leg.
pub open spec fn tip_entered<E>(treasury: Identity, accounts: SendTip, amount: u64) -> TipStep<E> {
    match validated(treasury, accounts, amount) {
        Ok(split) => leg_asked(accounts, split, LegKind::Platform),
        Err(e) => TipStep::Done { emitted: None, outcome: Err(Failure::Rejected(e)) },
    }
}

/// Starts a tip of `amount` from `accounts.tipper` to `accounts.creator`, of
/// which the platform keeps 3%. `treasury` is the platform's own account;
/// `E` is the error of the host's transfer primitive.
pub fn send_tip<E>(treasury: &Identity, accounts: SendTip, amount: u64) -> (step: TipStep<E>)
    ensures
        step == tip_entered::<E>(*treasury, accounts, amount),
        step.wf(),
{
    match validate(treasury, &accounts, amount) {
        Ok(split) => ask_leg(accounts, split, LegKind::Platform),
        Err(e) => TipStep::Done { emitted: None, outcome: Err(Failure::Rejected(e)) },
    }
}

/// A tip that names another treasury than the platform's is refused for
/// that, whatever its amount, and nothing is asked of the host.
pub proof fn wrong_treasury_is_refused<E>(treasury: Identity, accounts: SendTip, amount: u64)
    requires
        accounts.platform_wallet@ != treasury@,
    ensures
        tip_entered::<E>(treasury, accounts, amount) == (TipStep::<E>::Done {
            emitted: None,
            outcome: Err(Failure::Rejected(TipError::InvalidPlatformWallet)),
        }),
{
}

/// A tip that cannot be split is refused with the reason: a tip of nothing
/// as an invalid amount, one above `MAX_TIP` as an overflow. No leg is asked
/// for and nothing is recorded.
pub proof fn unsplittable_tip_is_refused<E>(treasury: Identity, accounts: SendTip, amount: u64)
    requires
        accounts.platform_wallet@ == treasury@,
        amount == 0 || amount * PLATFORM_FEE_BPS > u64::MAX,
    ensures
        tip_entered::<E>(treasury, accounts, amount) == (TipStep::<E>::Done {
            emitted: None,
            outcome: Err(
                Failure::Rejected(
                    if amount == 0 {
                        TipError::InvalidAmount
                    } else {
                        TipError::MathOverflow
                    },
                ),
            ),
        }),
{
}

/// A tip that passes the checks runs as follows while every leg goes
/// through: the fee is sent to the treasury, then the rest to the creator,
/// then the clock is read, and the call ends well with the record of the
/// tip, stamped with that time.
pub proof fn tip_goes_through<E>(treasury: Identity, accounts: SendTip, amount: u64, now: i64)
    requires
        accounts.platform_wallet@ == treasury@,
        1 <= amount <= MAX_TIP,
    ensures
        ({
            let split = split_of(amount)->Ok_0;
            let first = tip_entered::<E>(treasury, accounts, amount);
            let second = first->transferring.after::<E>(Ok(()));
            let third = second->transferring.after::<E>(Ok(()));
            let last = third->stamping.after::<E>(now);
            &&& first is Transfer
            &&& first->leg == Leg {
                from: accounts.tipper@,
                to: accounts.platform_wallet,
                lamports: split.platform_fee,
            }
            &&& second is Transfer
            &&& second->leg == Leg {
                from: accounts.tipper@,
                to: accounts.creator,
                lamports: split.creator_amount,
            }
            &&& third is Time
            &&& last == (TipStep::<E>::Done {
                emitted: Some(
                    TipSent {
                        tipper: accounts.tipper@,
                        creator: accounts.creator,
                        total_amount: amount,
                        platform_fee: split.platform_fee,
                        creator_amount: split.creator_amount,
                        timestamp: now,
                    },
                ),
                outcome: Ok(()),
            })
        }),
{
}

/// Where the platform's leg fails, the call fails with the primitive's
/// error as it came: the creator's leg is never asked for and nothing is
/// recorded.
pub proof fn failed_platform_leg_fails_the_call<E>(
    treasury: Identity,
    accounts: SendTip,
    amount: u64,
    error: E,
)
    requires
        accounts.platform_wallet@ == treasury@,
        1 <= amount <= MAX_TIP,
    ensures
        ({
            let first = tip_entered::<E>(treasury, accounts, amount);
            &&& first is Transfer
            &&& first->transferring.after(Err(error)) == (TipStep::<E>::Done {
                emitted: None,
                outcome: Err(Failure::Transfer(error)),
            })
        }),
{
}

/// Where the creator's leg fails after the platform's leg went through, the
/// call fails with the primitive's error as it came, and nothing is
/// recorded. Undoing the platform's leg is the host's part.
pub proof fn failed_creator_leg_fails_the_call<E>(
    treasury: Identity,
    accounts: SendTip,
    amount: u64,
    error: E,
)
    requires
        accounts.platform_wallet@ == treasury@,
        1 <= amount <= MAX_TIP,
    ensures
        ({
            let first = tip_entered::<E>(treasury, accounts, amount);
            let second = first->transferring.after::<E>(Ok(()));
            &&& first is Transfer
            &&& second is Transfer
            &&& second->transferring.after(Err(error)) == (TipStep::<E>::Done {
                emitted: None,
                outcome: Err(Failure::Transfer(error)),
            })
        }),
{
}

/// The two legs of a tip that passed the checks move the whole tip and no
/// more: the fee and the creator's part add up to it, both are paid by the
/// account that signed, and the creator's part is never nothing.
pub proof fn legs_add_up(treasury: Identity, accounts: SendTip, amount: u64)
    requires
        validated(treasury, accounts, amount) is Ok,
    ensures
        ({
            let split = validated(treasury, accounts, amount)->Ok_0;
            let fee = platform_leg_of(accounts, split);
            let rest = creator_leg_of(accounts, split);
            &&& fee.lamports + rest.lamports == amount
            &&& fee.lamports == amount * 300 / 10000
            &&& rest.lamports > 0
            &&& fee.from == accounts.tipper@
            &&& rest.from == accounts.tipper@
            &&& fee.to@ == treasury@
            &&& rest.to == accounts.creator
        }),
{
}

/// Whatever the host answers, a tip is recorded only when it ends well, and
/// it ends well only from the reading of the clock, which is asked for only
/// when the creator's leg went through, which is asked for only when the
/// platform's leg went through.
pub proof fn record_needs_both_legs<E>(transferring: Transferring, outcome: Result<(), E>)
    ensures
        transferring.after(outcome) matches TipStep::Done { emitted, outcome: ended } ==> emitted
            is None && ended is Err && outcome is Err,
        transferring.after(outcome) is Time ==> transferring.kind == LegKind::Creator && outcome
            is Ok,
        transferring.after(outcome) matches TipStep::Transfer { transferring: next, leg } ==> {
            &&& transferring.kind == LegKind::Platform
            &&& outcome is Ok
            &&& next.kind == LegKind::Creator
            &&& next.accounts == transferring.accounts
            &&& next.split == transferring.split
            &&& leg == creator_leg_of(transferring.accounts, transferring.split)
        },
{
}

} // verus!
