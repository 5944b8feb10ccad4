use fixed_decimals::c::{ECs, E8s};
use fixed_decimals::d::{EDs, EDsCandid};
use fixed_decimals::error::DecimalError;
use fixed_decimals::scale::{base, try_base, MAX_DECIMALS};
use candid::Nat;
use num_bigint::BigUint;

fn big(n: u128) -> BigUint {
    BigUint::from(n)
}

fn eds(val: u64, decimals: u8) -> EDs {
    EDs::new(BigUint::from(val), decimals)
}

#[test]
fn one_and_a_half_times_two() {
    let r = eds(150, 2) * eds(200, 2);
    assert_eq!(r.val, big(300));
    assert_eq!(r.decimals, 2);
}

#[test]
fn scale_table_holds_the_powers_of_ten() {
    let mut expected = big(1);
    for d in 0..=31u8 {
        assert_eq!(base(d), expected);
        assert_eq!(EDs::base(d), expected);
        assert_eq!(try_base(d), Ok(expected.clone()));
        expected = expected * big(10);
    }
    assert_eq!(MAX_DECIMALS, 31);
}

#[test]
fn scale_of_32_decimals_is_refused() {
    assert_eq!(try_base(32), Err(DecimalError::UnsupportedPrecision));
    assert_eq!(try_base(255), Err(DecimalError::UnsupportedPrecision));
}

#[test]
fn try_new_refuses_32_decimals() {
    assert_eq!(EDs::try_new(big(1), 32), Err(DecimalError::UnsupportedPrecision));
    assert_eq!(EDs::try_new(big(1), 31), Ok(eds(1, 31)));
    assert_eq!(EDs::try_new(big(1), 0), Ok(eds(1, 0)));
    assert_eq!(EDs::try_from((7u64, 32u8)), Err(DecimalError::UnsupportedPrecision));
    assert_eq!(EDs::try_from((7u64, 8u8)), Ok(eds(7, 8)));
}

#[test]
fn dynamic_constants() {
    assert_eq!(EDs::zero(2), eds(0, 2));
    assert_eq!(EDs::one(2), eds(100, 2));
    assert_eq!(EDs::f0_1(2), eds(10, 2));
    assert_eq!(EDs::f0_2(2), eds(20, 2));
    assert_eq!(EDs::f0_25(2), eds(25, 2));
    assert_eq!(EDs::f0_3(2), eds(30, 2));
    assert_eq!(EDs::f0_33(2), eds(33, 2));
    assert_eq!(EDs::f0_4(2), eds(40, 2));
    assert_eq!(EDs::f0_5(2), eds(50, 2));
    assert_eq!(EDs::f0_6(2), eds(60, 2));
    assert_eq!(EDs::f0_67(2), eds(66, 2));
    assert_eq!(EDs::f0_7(2), eds(70, 2));
    assert_eq!(EDs::f0_75(2), eds(75, 2));
    assert_eq!(EDs::f0_8(2), eds(80, 2));
    assert_eq!(EDs::f0_9(2), eds(90, 2));
    assert_eq!(EDs::two(2), eds(200, 2));
    assert_eq!(EDs::f0_33(8), eds(33_333_333, 8));
    assert_eq!(EDs::f0_67(8), eds(66_666_666, 8));
    assert_eq!(EDs::one(0), eds(1, 0));
    assert_eq!(EDs::f0_5(0), eds(0, 0));
    assert_eq!(EDs::one(31).val, big(10u128.pow(31)));
}

#[test]
fn dynamic_addition_in_every_form() {
    let a = eds(150, 2);
    let b = eds(275, 2);
    assert_eq!(&a + &b, eds(425, 2));
    assert_eq!(a.clone() + b.clone(), eds(425, 2));
    assert_eq!(a.clone() + &b, eds(425, 2));
    assert_eq!(&a + b.clone(), eds(425, 2));
    let mut c = a.clone();
    c += &b;
    assert_eq!(c, eds(425, 2));
    c += b;
    assert_eq!(c, eds(700, 2));
}

#[test]
fn dynamic_subtraction_in_every_form() {
    let a = eds(1000, 2);
    let b = eds(325, 2);
    assert_eq!(&a - &b, eds(675, 2));
    assert_eq!(a.clone() - b.clone(), eds(675, 2));
    assert_eq!(a.clone() - &b, eds(675, 2));
    assert_eq!(&a - b.clone(), eds(675, 2));
    let mut c = a.clone();
    c -= &b;
    assert_eq!(c, eds(675, 2));
    c -= b;
    assert_eq!(c, eds(350, 2));
}

#[test]
fn dynamic_multiplication_in_every_form() {
    let a = eds(150, 2);
    let b = eds(200, 2);
    assert_eq!(&a * &b, eds(300, 2));
    assert_eq!(a.clone() * b.clone(), eds(300, 2));
    assert_eq!(a.clone() * &b, eds(300, 2));
    assert_eq!(&a * b.clone(), eds(300, 2));
    let mut c = a.clone();
    c *= &b;
    assert_eq!(c, eds(300, 2));
    c *= b;
    assert_eq!(c, eds(600, 2));
    assert_eq!(eds(33, 2) * eds(33, 2), eds(10, 2));
}

#[test]
fn dynamic_division_in_every_form() {
    let a = eds(300, 2);
    let b = eds(200, 2);
    assert_eq!(&a / &b, eds(150, 2));
    assert_eq!(a.clone() / b.clone(), eds(150, 2));
    assert_eq!(a.clone() / &b, eds(150, 2));
    assert_eq!(&a / b.clone(), eds(150, 2));
    let mut c = a.clone();
    c /= &b;
    assert_eq!(c, eds(150, 2));
    c /= b;
    assert_eq!(c, eds(75, 2));
    assert_eq!(eds(100, 2) / eds(300, 2), eds(33, 2));
}

#[test]
fn plain_integer_operands_are_not_rescaled() {
    let a = eds(150, 2);
    assert_eq!(&a * 3u64, eds(450, 2));
    assert_eq!(a.clone() * 3u64, eds(450, 2));
    assert_eq!(&a / 4u64, eds(37, 2));
    assert_eq!(a.clone() / 4u64, eds(37, 2));
    assert_eq!(&a * 0u64, eds(0, 2));
    let mut c = a.clone();
    c *= 10u64;
    assert_eq!(c, eds(1500, 2));
    c /= 7u64;
    assert_eq!(c, eds(214, 2));
}

#[test]
fn dynamic_one_is_neutral() {
    for d in [0u8, 2, 8, 31] {
        for x in [0u64, 1, 99, 12_345, u64::MAX] {
            assert_eq!(EDs::one(d) * eds(x, d), eds(x, d));
            assert_eq!(eds(x, d) * EDs::one(d), eds(x, d));
            assert_eq!(eds(x, d) / EDs::one(d), eds(x, d));
        }
    }
}

#[test]
fn try_operations_report_a_precision_mismatch() {
    let a = eds(150, 2);
    let b = eds(150, 3);
    assert_eq!(a.try_add(&b), Err(DecimalError::PrecisionMismatch));
    assert_eq!(a.try_sub(&b), Err(DecimalError::PrecisionMismatch));
    assert_eq!(a.try_mul(&b), Err(DecimalError::PrecisionMismatch));
    assert_eq!(a.try_div(&b), Err(DecimalError::PrecisionMismatch));
    // the mismatch is reported before anything else
    assert_eq!(eds(1, 2).try_sub(&eds(9, 3)), Err(DecimalError::PrecisionMismatch));
    assert_eq!(eds(1, 2).try_div(&eds(0, 3)), Err(DecimalError::PrecisionMismatch));
}

#[test]
fn try_operations_give_what_the_operators_give() {
    let a = eds(1000, 2);
    let b = eds(325, 2);
    assert_eq!(a.try_add(&b), Ok(eds(1325, 2)));
    assert_eq!(a.try_sub(&b), Ok(eds(675, 2)));
    assert_eq!(a.try_mul(&b), Ok(eds(3250, 2)));
    assert_eq!(a.try_div(&b), Ok(eds(307, 2)));
}

#[test]
fn dynamic_try_sub_reports_underflow() {
    assert_eq!(eds(325, 2).try_sub(&eds(1000, 2)), Err(DecimalError::Underflow));
    assert_eq!(eds(325, 2).try_sub(&eds(325, 2)), Ok(eds(0, 2)));
}

#[test]
fn dynamic_try_div_reports_a_zero_divisor() {
    assert_eq!(eds(325, 2).try_div(&eds(0, 2)), Err(DecimalError::DivisionByZero));
}

#[test]
fn try_operations_report_an_unsupported_precision() {
    let a = EDs { val: big(5), decimals: 32 };
    let b = EDs { val: big(3), decimals: 32 };
    assert_eq!(a.try_add(&b), Err(DecimalError::UnsupportedPrecision));
    assert_eq!(a.try_sub(&b), Err(DecimalError::UnsupportedPrecision));
    assert_eq!(a.try_mul(&b), Err(DecimalError::UnsupportedPrecision));
    assert_eq!(a.try_div(&b), Err(DecimalError::UnsupportedPrecision));
    // a larger subtrahend is noticed first, a zero divisor last
    assert_eq!(b.try_sub(&a), Err(DecimalError::Underflow));
    let zero = EDs { val: big(0), decimals: 32 };
    assert_eq!(a.try_div(&zero), Err(DecimalError::UnsupportedPrecision));
}

#[test]
fn dynamic_square_root_takes_the_whole_part_only() {
    assert_eq!(eds(1600, 2).sqrt(), eds(400, 2));
    assert_eq!(eds(1699, 2).sqrt(), eds(400, 2));
    assert_eq!(eds(99, 2).sqrt(), eds(0, 2));
    assert_eq!(eds(17, 0).sqrt(), eds(4, 0));
    assert_eq!(eds(2_500_000_000, 8).sqrt(), eds(500_000_000, 8));
}

#[test]
fn dynamic_conversion_between_precisions() {
    assert_eq!(eds(123, 2).to_decimals(2), eds(123, 2));
    assert_eq!(eds(123, 2).to_decimals(8), eds(123_000_000, 8));
    assert_eq!(eds(123_456_789, 8).to_decimals(2), eds(123, 2));
    assert_eq!(eds(123_456_789, 8).to_decimals(0), eds(1, 0));
    assert_eq!(eds(7, 0).to_decimals(31).val, big(7 * 10u128.pow(31)));
    assert_eq!(eds(7, 0).to_decimals(31).decimals, 31);
    assert_eq!(eds(7, 0).to_decimals(31).to_decimals(0), eds(7, 0));
}

#[test]
fn dynamic_conversion_through_an_intermediate_precision() {
    let v = eds(123_456_789, 8);
    // up first, then down: as the direct conversion
    assert_eq!(v.clone().to_decimals(12).to_decimals(4), v.clone().to_decimals(4));
    // down twice: as the direct conversion
    assert_eq!(v.clone().to_decimals(4).to_decimals(2), v.clone().to_decimals(2));
    // down, then up again: the low digits are gone
    assert_eq!(v.clone().to_decimals(2).to_decimals(8), eds(123_000_000, 8));
    assert_ne!(v.clone().to_decimals(2).to_decimals(8), v);
}

#[test]
fn dynamic_and_static_forms_convert_into_each_other() {
    let d = eds(150_000_000, 8);
    let c: E8s = d.clone().to_const::<8>();
    assert_eq!(c, E8s::from(150_000_000u64));
    assert_eq!(c.to_dynamic(), d);
    assert_eq!(d.clone().try_to_const::<8>(), Ok(E8s::from(150_000_000u64)));
}

#[test]
fn try_to_const_reports_a_representation_mismatch() {
    assert_eq!(eds(150, 2).try_to_const::<8>(), Err(DecimalError::RepresentationMismatch));
    assert_eq!(eds(150, 2).try_to_const::<258>(), Err(DecimalError::RepresentationMismatch));
    assert_eq!(eds(150, 2).try_to_const::<2>(), Ok(ECs::<2>::from(150u64)));
}

#[test]
fn dynamic_text() {
    assert_eq!(eds(1234, 2).to_string(), "12.34");
    assert_eq!(eds(105, 2).to_string(), "1.5");
    assert_eq!(eds(100_000_005, 8).to_string(), "1.5");
    assert_eq!(eds(0, 0).to_string(), "0.0");
    assert_eq!(eds(42, 0).to_string(), "42.0");
}

#[test]
fn dynamic_values_compare_by_mantissa_then_precision() {
    assert!(eds(5, 2) < eds(7, 2));
    assert!(eds(5, 9) < eds(7, 2));
    assert!(eds(5, 2) < eds(5, 3));
    assert!(eds(5, 3) > eds(5, 2));
    assert_eq!(eds(5, 2), eds(5, 2));
    assert_ne!(eds(5, 2), eds(5, 3));
    assert_ne!(eds(5, 2), eds(6, 2));
    assert_eq!(eds(5, 2).partial_cmp(&eds(5, 2)), Some(std::cmp::Ordering::Equal));
    assert_eq!(eds(5, 2).cmp(&eds(5, 3)), std::cmp::Ordering::Less);
    assert_eq!(eds(6, 2).cmp(&eds(5, 3)), std::cmp::Ordering::Greater);
}

#[test]
fn dynamic_default_and_clone() {
    assert_eq!(EDs::default(), eds(0, 0));
    let v = EDs::new(big(u128::MAX), 31);
    assert_eq!(v.clone(), v);
}

#[test]
fn record_round_trip_keeps_mantissa_and_precision() {
    for (val, decimals) in [(0u64, 0u8), (150, 2), (u64::MAX, 31), (33_333_333, 8)] {
        let v = eds(val, decimals);
        let record = v.to_candid();
        assert_eq!(record.val, Nat::from(val));
        assert_eq!(record.decimals, decimals);
        assert_eq!(EDs::from_candid(record), v);
        assert_eq!(EDs::try_from_candid(v.to_candid()), Ok(v));
    }
}

#[test]
fn record_with_32_decimals_is_refused() {
    let record = EDsCandid { val: Nat::from(5u64), decimals: 32 };
    assert_eq!(EDs::try_from_candid(record), Err(DecimalError::UnsupportedPrecision));
}

#[test]
fn static_values_travel_as_their_mantissa() {
    let v = E8s::from(33_333_333u64);
    assert_eq!(v.to_nat(), Nat::from(33_333_333u64));
    assert_eq!(E8s::from_nat(v.to_nat()), v);
    assert_eq!(E8s::from_nat(Nat::from(7u64)), E8s::from(7u64));
}

#[test]
fn dynamic_values_turn_into_a_natural_number() {
    let v = eds(150, 2);
    let by_ref: Nat = (&v).into();
    assert_eq!(by_ref, Nat::from(150u64));
    let owned: Nat = v.into();
    assert_eq!(owned, Nat::from(150u64));
}

#[test]
fn static_value_round_trips_through_candid_bytes() {
    for x in [0u128, 1, 127, 128, 33_333_333, u128::MAX] {
        let v = E8s::from(x);
        let bytes = candid::encode_one(v.to_nat()).unwrap();
        let back: Nat = candid::decode_one(&bytes).unwrap();
        assert_eq!(E8s::from_nat(back), v);
    }
    // a single natural number: magic, empty type table, one argument of
    // type nat, and the mantissa in LEB128
    let bytes = candid::encode_one(E8s::from(300u64).to_nat()).unwrap();
    assert_eq!(bytes, vec![b'D', b'I', b'D', b'L', 0, 1, 0x7d, 0xac, 0x02]);
}
