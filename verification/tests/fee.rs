use creator_tip::{split_fee, FeeSplit, TipError, BPS_DENOMINATOR, MAX_TIP, PLATFORM_FEE_BPS};

fn expected(amount: u64) -> FeeSplit {
    let fee = (amount as u128 * 300 / 10000) as u64;
    FeeSplit { total: amount, platform_fee: fee, creator_amount: amount - fee }
}

#[test]
fn rate_is_three_percent_in_basis_points() {
    assert_eq!(PLATFORM_FEE_BPS, 300);
    assert_eq!(BPS_DENOMINATOR, 10000);
}

#[test]
fn max_tip_is_the_last_whose_product_fits() {
    assert_eq!(MAX_TIP, u64::MAX / 300);
    assert_eq!(MAX_TIP, 61489146912365172);
    assert!(MAX_TIP.checked_mul(300).is_some());
    assert!((MAX_TIP + 1).checked_mul(300).is_none());
}

#[test]
fn zero_is_an_invalid_amount() {
    assert_eq!(split_fee(0), Err(TipError::InvalidAmount));
}

#[test]
fn tips_up_to_33_pay_no_fee() {
    for amount in 1..=33u64 {
        assert_eq!(
            split_fee(amount),
            Ok(FeeSplit { total: amount, platform_fee: 0, creator_amount: amount })
        );
    }
}

#[test]
fn tip_of_34_pays_the_first_unit_of_fee() {
    assert_eq!(split_fee(34), Ok(FeeSplit { total: 34, platform_fee: 1, creator_amount: 33 }));
}

#[test]
fn tip_of_ten_thousand() {
    assert_eq!(
        split_fee(10000),
        Ok(FeeSplit { total: 10000, platform_fee: 300, creator_amount: 9700 })
    );
}

#[test]
fn tip_of_one_billion() {
    assert_eq!(
        split_fee(1_000_000_000),
        Ok(FeeSplit {
            total: 1_000_000_000,
            platform_fee: 30_000_000,
            creator_amount: 970_000_000
        })
    );
}

#[test]
fn fee_is_rounded_down() {
    assert_eq!(split_fee(99), Ok(FeeSplit { total: 99, platform_fee: 2, creator_amount: 97 }));
    assert_eq!(split_fee(100), Ok(FeeSplit { total: 100, platform_fee: 3, creator_amount: 97 }));
    assert_eq!(
        split_fee(9999),
        Ok(FeeSplit { total: 9999, platform_fee: 299, creator_amount: 9700 })
    );
}

#[test]
fn largest_tip_is_split() {
    assert_eq!(
        split_fee(MAX_TIP),
        Ok(FeeSplit {
            total: 61489146912365172,
            platform_fee: 1844674407370955,
            creator_amount: 59644472504994217
        })
    );
}

#[test]
fn tip_above_the_largest_overflows() {
    assert_eq!(split_fee(MAX_TIP + 1), Err(TipError::MathOverflow));
    assert_eq!(split_fee(1 << 63), Err(TipError::MathOverflow));
    assert_eq!(split_fee(u64::MAX), Err(TipError::MathOverflow));
}

#[test]
fn split_adds_up_over_the_range() {
    let samples = [
        1u64,
        2,
        33,
        34,
        66,
        67,
        333,
        334,
        10_000,
        12_345,
        1_000_000_007,
        u32::MAX as u64,
        MAX_TIP / 2,
        MAX_TIP - 1,
        MAX_TIP,
    ];
    for amount in samples {
        let split = split_fee(amount).unwrap();
        assert_eq!(split, expected(amount));
        assert_eq!(split.platform_fee + split.creator_amount, amount);
        assert!(split.creator_amount > 0);
    }
}
