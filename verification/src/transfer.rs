//! The two movements of value that make a tip.

use vstd::prelude::*;
use crate::fee::FeeSplit;
use crate::guard::SendTip;
use crate::identity::Identity;

verus! {

/// One movement of value, for the host's transfer primitive to carry out.
#[derive(Clone, Copy, Debug, PartialEq, Eq)]
pub struct Leg {
    /// The account that pays.
    pub from: Identity,
    /// The account that receives.
    pub to: Identity,
    /// How much, in the asset's smallest unit.
    pub lamports: u64,
}

/// The first leg of a tip: the platform's fee, from the payer to the treasury.
pub open spec fn platform_leg_of(accounts: SendTip, split: FeeSplit) -> Leg {
    Leg { from: accounts.tipper@, to: accounts.platform_wallet, lamports: split.platform_fee }
}

/// The second leg of a tip: the rest, from the payer to the creator.
pub open spec fn creator_leg_of(accounts: SendTip, split: FeeSplit) -> Leg {
    Leg { from: accounts.tipper@, to: accounts.creator, lamports: split.creator_amount }
}

/// Builds the first leg of a tip.
pub fn platform_leg(accounts: &SendTip, split: &FeeSplit) -> (leg: Leg)
    ensures
        leg == platform_leg_of(*accounts, *split),
{
    Leg { from: accounts.tipper.key(), to: accounts.platform_wallet, lamports: split.platform_fee }
}

/// Builds the second leg of a tip.
pub fn creator_leg(accounts: &SendTip, split: &FeeSplit) -> (leg: Leg)
    ensures
        leg == creator_leg_of(*accounts, *split),
{
    Leg { from: accounts.tipper.key(), to: accounts.creator, lamports: split.creator_amount }
}

} // verus!
