use bank_statement_importer::amount::Amount;

#[test]
fn amount_is_read_with_its_scale() {
    let amount = Amount::from_str("191.60").unwrap();
    assert_eq!(amount.mantissa(), 19160);
    assert_eq!(amount.scale(), 2);

    let negative = Amount::from_str("-0.5").unwrap();
    assert_eq!(negative.mantissa(), -5);
    assert_eq!(negative.scale(), 1);

    let whole = Amount::from_str("42").unwrap();
    assert_eq!(whole.mantissa(), 42);
    assert_eq!(whole.scale(), 0);
}

#[test]
fn text_that_is_no_number_is_no_amount() {
    assert!(Amount::from_str("abc").is_none());
    assert!(Amount::from_str("").is_none());
    assert!(Amount::from_str("12,50").is_none());
    assert!(Amount::from_str(" 12.50").is_none());
}

#[test]
fn amount_is_made_of_mantissa_and_scale_within_bounds() {
    let amount = Amount::new(-19160, 2).unwrap();
    assert_eq!(amount.mantissa(), -19160);
    assert_eq!(amount.scale(), 2);
    assert_eq!(amount.to_string(), "-191.60");

    let largest: i128 = 79_228_162_514_264_337_593_543_950_335;
    assert!(Amount::new(largest, 0).is_some());
    assert!(Amount::new(-largest, 28).is_some());
    assert!(Amount::new(largest + 1, 0).is_none());
    assert!(Amount::new(-largest - 1, 0).is_none());
    assert!(Amount::new(1, 29).is_none());
}

#[test]
fn zero_is_zero_without_decimal_places() {
    let zero = Amount::zero();
    assert_eq!(zero.mantissa(), 0);
    assert_eq!(zero.scale(), 0);
    assert_eq!(zero.to_string(), "0");
    assert!(!zero.is_positive());
}

#[test]
fn abs_drops_the_sign_and_keeps_the_scale() {
    let negative = Amount::from_str("-191.60").unwrap();
    let magnitude = negative.abs();
    assert_eq!(magnitude.mantissa(), 19160);
    assert_eq!(magnitude.scale(), 2);
    assert_eq!(Amount::from_str("7.5").unwrap().abs().mantissa(), 75);
    assert_eq!(Amount::from_str("0.00").unwrap().abs().mantissa(), 0);
}

#[test]
fn only_amounts_above_zero_are_positive() {
    assert!(Amount::from_str("0.01").unwrap().is_positive());
    assert!(!Amount::from_str("0.00").unwrap().is_positive());
    assert!(!Amount::from_str("-0.01").unwrap().is_positive());
}

#[test]
fn sums_are_exact() {
    let left = Amount::from_str("100.00").unwrap();
    let right = Amount::from_str("50.00").unwrap();
    let sum = left.checked_add(&right).unwrap();
    assert_eq!(sum.mantissa(), 15000);
    assert_eq!(sum.scale(), 2);

    let tenth = Amount::from_str("0.1").unwrap();
    let fifth = Amount::from_str("0.2").unwrap();
    assert_eq!(
        tenth.checked_add(&fifth).unwrap(),
        Amount::from_str("0.3").unwrap()
    );

    let mixed = Amount::from_str("1.5")
        .unwrap()
        .checked_add(&Amount::from_str("0.25").unwrap())
        .unwrap();
    assert_eq!(mixed.mantissa(), 175);
    assert_eq!(mixed.scale(), 2);

    let back = Amount::from_str("191.60")
        .unwrap()
        .checked_add(&Amount::from_str("-191.60").unwrap())
        .unwrap();
    assert_eq!(back.mantissa(), 0);
}

#[test]
fn sum_that_cannot_be_held_is_none() {
    let largest = Amount::new(79_228_162_514_264_337_593_543_950_335, 0).unwrap();
    assert!(largest.checked_add(&largest).is_none());
    assert!(largest.checked_add(&Amount::new(1, 0).unwrap()).is_none());
    assert!(largest.checked_add(&Amount::zero()).is_some());
}

#[test]
fn amounts_are_printed_with_their_decimal_places() {
    assert_eq!(Amount::from_str("191.60").unwrap().to_string(), "191.60");
    assert_eq!(Amount::from_str("200.00").unwrap().to_string(), "200.00");
    assert_eq!(Amount::from_str("-3.5").unwrap().to_string(), "-3.5");
    assert_eq!(Amount::new(5, 3).unwrap().to_string(), "0.005");
}

#[test]
fn amounts_are_equal_when_they_are_the_same_number() {
    assert_eq!(
        Amount::from_str("191.6").unwrap(),
        Amount::from_str("191.60").unwrap()
    );
    assert_eq!(Amount::zero(), Amount::from_str("0.000").unwrap());
    assert_ne!(
        Amount::from_str("191.6").unwrap(),
        Amount::from_str("191.61").unwrap()
    );
    assert_ne!(
        Amount::from_str("1").unwrap(),
        Amount::from_str("-1").unwrap()
    );
    assert_ne!(Amount::new(1, 0).unwrap(), Amount::new(1, 1).unwrap());
}

#[test]
fn printed_amount_has_a_whole_part_and_all_its_decimal_places() {
    let text = |mantissa, scale| Amount::new(mantissa, scale).unwrap().to_string();
    assert_eq!(text(0, 0), "0");
    assert_eq!(text(0, 2), "0.00");
    assert_eq!(text(0, 28), "0.0000000000000000000000000000");
    assert_eq!(text(7, 0), "7");
    assert_eq!(text(7, 1), "0.7");
    assert_eq!(text(7, 2), "0.07");
    assert_eq!(text(-7, 2), "-0.07");
    assert_eq!(text(10, 1), "1.0");
    assert_eq!(text(100, 2), "1.00");
    assert_eq!(text(-100, 1), "-10.0");
    assert_eq!(text(19160, 2), "191.60");
    assert_eq!(text(1234567890, 9), "1.234567890");
    assert_eq!(text(1, 28), "0.0000000000000000000000000001");
    assert_eq!(
        text(79_228_162_514_264_337_593_543_950_335, 0),
        "79228162514264337593543950335"
    );
    assert_eq!(
        text(-79_228_162_514_264_337_593_543_950_335, 28),
        "-7.9228162514264337593543950335"
    );
    assert_eq!(
        text(79_228_162_514_264_337_593_543_950_335, 10),
        "7922816251426433759.3543950335"
    );
}

fn parts(amount: Option<Amount>) -> Option<(i128, u32)> {
    amount.map(|a| (a.mantissa(), a.scale()))
}

#[test]
fn adding_to_zero_gives_the_other_amount_with_its_scale() {
    let largest: i128 = 79_228_162_514_264_337_593_543_950_335;
    let mantissas = [
        0,
        1,
        -1,
        19160,
        -19160,
        u32::MAX as i128,
        u32::MAX as i128 + 1,
        u64::MAX as i128,
        u64::MAX as i128 + 1,
        -(u64::MAX as i128) - 1,
        largest,
        -largest,
    ];
    for zero_scale in [0, 1, 2, 19, 20, 28] {
        let zero = Amount::new(0, zero_scale).unwrap();
        for mantissa in mantissas {
            for scale in [0, 1, 2, 9, 10, 19, 20, 28] {
                let other = Amount::new(mantissa, scale).unwrap();
                assert_eq!(parts(zero.checked_add(&other)), Some((mantissa, scale)));
                if mantissa != 0 {
                    assert_eq!(parts(other.checked_add(&zero)), Some((mantissa, scale)));
                }
            }
        }
    }
}

#[test]
fn small_amounts_of_one_scale_are_added_mantissa_to_mantissa() {
    let small = [
        0u64,
        1,
        2,
        9,
        10,
        19160,
        u32::MAX as u64 - 1,
        u32::MAX as u64,
        u32::MAX as u64 + 1,
        u32::MAX as u64 + 2,
        1 << 40,
        u64::MAX / 2,
        u64::MAX / 2 + 1,
        u64::MAX - 1,
        u64::MAX,
    ];
    for scale in [0, 1, 2, 3, 9, 10, 18, 19, 20, 27, 28] {
        for left in small {
            for right in small {
                let sum = Amount::new(left as i128, scale)
                    .unwrap()
                    .checked_add(&Amount::new(right as i128, scale).unwrap());
                assert_eq!(
                    parts(sum),
                    Some((left as i128 + right as i128, scale)),
                    "{} + {} at scale {}",
                    left,
                    right,
                    scale
                );
            }
        }
    }
}
