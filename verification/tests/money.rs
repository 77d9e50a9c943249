use marketplace::money::{add_amounts, mul_decimal, Decimal, DECIMAL_FRACTIONAL};
use marketplace::taxation::{compute_tax, deduct_tax, TaxInfo};
use marketplace::text::{bool_to_string, rate_to_string, u128_to_string, u64_to_string};

fn outside_rate(atomics: u128) -> cosmwasm_std::Decimal {
    cosmwasm_std::Decimal::from_ratio(atomics, DECIMAL_FRACTIONAL)
}

#[test]
fn rates_are_held_in_atomic_units() {
    assert_eq!(Decimal::zero().atomics(), 0);
    assert_eq!(Decimal::one().atomics(), 1_000_000_000_000_000_000);
    assert_eq!(Decimal::percent(5).atomics(), 50_000_000_000_000_000);
    assert_eq!(Decimal::permille(25).atomics(), 25_000_000_000_000_000);
    assert_eq!(Decimal::raw(17).atomics(), 17);
    assert_eq!(Decimal::percent(u64::MAX).atomics(), 184_467_440_737_095_516_150_000_000_000_000_000);
    assert!(Decimal::zero().is_zero());
    assert!(!Decimal::raw(1).is_zero());
    assert!(Decimal::percent(12).gt(&Decimal::percent(10)));
    assert!(!Decimal::percent(10).gt(&Decimal::percent(10)));
}

#[test]
fn products_round_down() {
    assert_eq!(mul_decimal(1000, Decimal::percent(5)), Some(50));
    assert_eq!(mul_decimal(2100, Decimal::percent(1)), Some(21));
    assert_eq!(mul_decimal(99, Decimal::percent(1)), Some(0));
    assert_eq!(mul_decimal(199, Decimal::percent(1)), Some(1));
    assert_eq!(mul_decimal(1_690_000_000, Decimal::raw(17_500_000_000_000_000)), Some(29_575_000));
    assert_eq!(mul_decimal(0, Decimal::percent(50)), Some(0));
    assert_eq!(mul_decimal(12345, Decimal::zero()), Some(0));
    assert_eq!(mul_decimal(12345, Decimal::one()), Some(12345));
    // One third, as closely as 18 digits give it.
    assert_eq!(mul_decimal(3_000, Decimal::raw(333_333_333_333_333_333)), Some(999));
}

#[test]
fn products_by_rates_above_one() {
    assert_eq!(mul_decimal(10, Decimal::percent(150)), Some(15));
    assert_eq!(mul_decimal(7, Decimal::percent(250)), Some(17));
    assert_eq!(mul_decimal(u128::MAX, Decimal::one()), Some(u128::MAX));
    assert_eq!(mul_decimal(u128::MAX / 2, Decimal::percent(200)), Some(u128::MAX - 1));
}

#[test]
fn products_that_do_not_fit_are_refused() {
    assert_eq!(mul_decimal(u128::MAX, Decimal::percent(101)), None);
    assert_eq!(mul_decimal(u128::MAX / 2 + 1, Decimal::percent(200)), None);
    assert_eq!(mul_decimal(u128::MAX, Decimal::raw(u128::MAX)), None);
    // The whole part fits, the fraction tips it over.
    assert_eq!(mul_decimal(u128::MAX - 1, Decimal::raw(DECIMAL_FRACTIONAL + 1)), None);
}

#[test]
fn products_agree_with_the_host_arithmetic() {
    let amounts: [u128; 7] = [0, 1, 99, 2100, 100_000_000, 1_690_000_000, u128::MAX];
    let rates: [u128; 6] = [
        0,
        1,
        17_500_000_000_000_000,
        50_000_000_000_000_000,
        999_999_999_999_999_999,
        1_000_000_000_000_000_000,
    ];
    for amount in amounts {
        for atomics in rates {
            let expected = cosmwasm_std::Uint128::new(amount) * outside_rate(atomics);
            assert_eq!(mul_decimal(amount, Decimal::raw(atomics)), Some(expected.u128()));
        }
    }
}

#[test]
fn sums_are_checked() {
    assert_eq!(add_amounts(1, 2), Some(3));
    assert_eq!(add_amounts(u128::MAX, 0), Some(u128::MAX));
    assert_eq!(add_amounts(u128::MAX, 1), None);
}

#[test]
fn tax_is_the_rate_on_what_arrives() {
    let tax = TaxInfo { rate: Decimal::percent(1), cap: 1_000_000 };
    assert_eq!(compute_tax(2100, &tax), Some(21));
    assert_eq!(deduct_tax(2100, &tax), Some(2079));
    assert_eq!(deduct_tax(2000, &tax), Some(1980));
    assert_eq!(deduct_tax(100, &tax), Some(99));
    assert_eq!(deduct_tax(500, &tax), Some(495));
    assert_eq!(deduct_tax(85_000_000, &tax), Some(84_158_415));
    assert_eq!(deduct_tax(0, &tax), Some(0));
}

#[test]
fn tax_is_capped() {
    let tax = TaxInfo { rate: Decimal::percent(1), cap: 1_000_000 };
    assert_eq!(compute_tax(169_000_000, &tax), Some(1_000_000));
    assert_eq!(deduct_tax(169_000_000, &tax), Some(168_000_000));
    assert_eq!(deduct_tax(1_491_425_000, &tax), Some(1_490_425_000));
    let uncapped = TaxInfo { rate: Decimal::percent(1), cap: u128::MAX };
    assert_eq!(deduct_tax(169_000_000, &uncapped), Some(167_326_732));
}

#[test]
fn no_tax_takes_nothing() {
    let free = TaxInfo { rate: Decimal::zero(), cap: 1_000_000 };
    assert_eq!(compute_tax(12345, &free), Some(0));
    assert_eq!(deduct_tax(12345, &free), Some(12345));
    let capped_at_nothing = TaxInfo { rate: Decimal::percent(1), cap: 0 };
    assert_eq!(deduct_tax(12345, &capped_at_nothing), Some(12345));
}

#[test]
fn a_rate_that_cannot_be_added_to_one_gives_no_tax() {
    let tax = TaxInfo { rate: Decimal::raw(u128::MAX), cap: 1_000_000 };
    assert_eq!(compute_tax(100, &tax), None);
    assert_eq!(deduct_tax(100, &tax), None);
    let largest = TaxInfo { rate: Decimal::raw(u128::MAX - DECIMAL_FRACTIONAL), cap: u128::MAX };
    assert_eq!(deduct_tax(100, &largest), Some(0));
}

#[test]
fn numbers_are_written_in_decimal() {
    assert_eq!(u128_to_string(0), "0");
    assert_eq!(u128_to_string(7), "7");
    assert_eq!(u128_to_string(10), "10");
    assert_eq!(u128_to_string(12345), "12345");
    assert_eq!(u128_to_string(100_000_000), "100000000");
    assert_eq!(u128_to_string(u128::MAX), u128::MAX.to_string());
    assert_eq!(u64_to_string(0), "0");
    assert_eq!(u64_to_string(1_571_797_419), "1571797419");
    assert_eq!(u64_to_string(u64::MAX), u64::MAX.to_string());
    assert_eq!(bool_to_string(true), "true");
    assert_eq!(bool_to_string(false), "false");
}

#[test]
fn rates_are_written_without_trailing_zeros() {
    assert_eq!(rate_to_string(0), "0");
    assert_eq!(rate_to_string(DECIMAL_FRACTIONAL), "1");
    assert_eq!(rate_to_string(Decimal::percent(10).atomics()), "0.1");
    assert_eq!(rate_to_string(Decimal::percent(5).atomics()), "0.05");
    assert_eq!(rate_to_string(17_500_000_000_000_000), "0.0175");
    assert_eq!(rate_to_string(1), "0.000000000000000001");
    assert_eq!(rate_to_string(1_100_000_000_000_000_000), "1.1");
    assert_eq!(rate_to_string(u128::MAX), "340282366920938463463.374607431768211455");
}

#[test]
fn rates_are_written_as_the_host_writes_them() {
    let rates: [u128; 9] = [
        0,
        1,
        10,
        17_500_000_000_000_000,
        100_000_000_000_000_000,
        999_999_999_999_999_999,
        1_000_000_000_000_000_000,
        12_345_000_000_000_000_000_000,
        u128::MAX,
    ];
    for atomics in rates {
        assert_eq!(rate_to_string(atomics), outside_rate(atomics).to_string());
    }
}
