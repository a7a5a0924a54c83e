//! The fee split: how much of a tip the platform keeps and how much the
//! creator receives.

use vstd::prelude::*;
use crate::error::TipError;

verus! {

/// The platform's share of a tip, in basis points: 300 bps are 3%.
pub const PLATFORM_FEE_BPS: u64 = 300;

/// The number of basis points in a whole.
pub const BPS_DENOMINATOR: u64 = 10000;

/// The largest tip that can be split: `u64::MAX / PLATFORM_FEE_BPS`. Above
/// it `amount * PLATFORM_FEE_BPS` no longer fits in 64 bits.
pub const MAX_TIP: u64 = 61489146912365172;

/// A tip, taken apart. All three are in the asset's smallest unit.
#[derive(Clone, Copy, Debug, PartialEq, Eq, Structural)]
pub struct FeeSplit {
    /// The whole tip.
    pub total: u64,
    /// What the platform keeps.
    pub platform_fee: u64,
    /// What the creator receives.
    pub creator_amount: u64,
}

impl FeeSplit {
    /// The two parts add up to the whole, and the creator gets something.
    pub open spec fn wf(&self) -> bool {
        &&& self.platform_fee + self.creator_amount == self.total
        &&& self.creator_amount > 0
    }
}

/// The platform's fee on `amount`: 3%, rounded down.
pub open spec fn platform_fee_of(amount: nat) -> nat {
    amount * (PLATFORM_FEE_BPS as nat) / (BPS_DENOMINATOR as nat)
}

/// The split of `amount`, or the reason why it has none.
pub open spec fn split_of(amount: u64) -> Result<FeeSplit, TipError> {
    if amount == 0 {
        Err(TipError::InvalidAmount)
    } else if amount * PLATFORM_FEE_BPS > u64::MAX {
        Err(TipError::MathOverflow)
    } else {
        Ok(
            FeeSplit {
                total: amount,
                platform_fee: platform_fee_of(amount as nat) as u64,
                creator_amount: (amount - platform_fee_of(amount as nat)) as u64,
            },
        )
    }
}

/// Splits a tip of `amount` into the platform's fee and the creator's part.
///
/// The fee is computed by multiplying first and dividing after, so that
/// nothing but the final rounding is lost; the product is checked against
/// the 64-bit range.
pub fn split_fee(amount: u64) -> (r: Result<FeeSplit, TipError>)
    ensures
        r == split_of(amount),
        r matches Ok(split) ==> split.wf(),
{
    if amount == 0 {
        return Err(TipError::InvalidAmount);
    }
    let scaled: u64 = match amount.checked_mul(PLATFORM_FEE_BPS) {
        Some(v) => v,
        None => {
            return Err(TipError::MathOverflow);
        },
    };
    let platform_fee: u64 = match scaled.checked_div(BPS_DENOMINATOR) {
        Some(v) => v,
        None => {
            return Err(TipError::MathOverflow);
        },
    };
    let creator_amount: u64 = match amount.checked_sub(platform_fee) {
        Some(v) => v,
        None => {
            return Err(TipError::MathOverflow);
        },
    };
    if creator_amount == 0 {
        return Err(TipError::InvalidAmount);
    }
    Ok(FeeSplit { total: amount, platform_fee, creator_amount })
}

/// A tip can be split exactly when it is at least 1 and its product with the
/// fee rate fits in 64 bits, which is when it is at most `MAX_TIP`. A tip of
/// nothing is an invalid amount, a tip above `MAX_TIP` an overflow, and no
/// tip is refused for another reason.
pub proof fn split_exists_within_range(amount: u64)
    ensures
        amount <= MAX_TIP <==> amount * PLATFORM_FEE_BPS <= u64::MAX,
        split_of(amount) is Ok <==> 1 <= amount <= MAX_TIP,
        split_of(amount) == Err::<FeeSplit, TipError>(TipError::InvalidAmount) <==> amount == 0,
        split_of(amount) == Err::<FeeSplit, TipError>(TipError::MathOverflow) <==> amount
            > MAX_TIP,
{
}

/// Every tip from 1 to `MAX_TIP` is split into a fee of 3%, rounded down,
/// and the rest; the two add up to the tip, and the rest is never nothing.
pub proof fn split_is_exact(amount: u64)
    requires
        1 <= amount <= MAX_TIP,
    ensures
        split_of(amount) matches Ok(split) && {
            &&& split.total == amount
            &&& split.platform_fee == amount * 300 / 10000
            &&& split.creator_amount == amount - split.platform_fee
            &&& split.platform_fee + split.creator_amount == amount
            &&& split.wf()
        },
{
}

/// The platform never keeps more than 3% of a tip, and less than one unit
/// short of it.
pub proof fn fee_is_three_percent(amount: u64)
    requires
        1 <= amount <= MAX_TIP,
    ensures
        split_of(amount) matches Ok(split) && {
            &&& split.platform_fee * 10000 <= amount * 300
            &&& amount * 300 < (split.platform_fee + 1) * 10000
        },
{
}

/// A tip below 34 units is too small for a fee: all of it is the creator's.
pub proof fn small_tip_pays_no_fee(amount: u64)
    requires
        1 <= amount <= 33,
    ensures
        split_of(amount) == Ok::<FeeSplit, TipError>(
            FeeSplit { total: amount, platform_fee: 0, creator_amount: amount },
        ),
{
}

} // verus!
