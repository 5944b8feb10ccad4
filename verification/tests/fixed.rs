use fixed_decimals::c::{ECs, E8s};
use fixed_decimals::error::DecimalError;
use num_bigint::BigUint;

fn big(n: u128) -> BigUint {
    BigUint::from(n)
}

fn cents(n: u64) -> ECs<2> {
    ECs::<2>::from(n)
}

#[test]
fn ten_minus_three_and_a_quarter() {
    let r = cents(1000) - cents(325);
    assert_eq!(r.val, big(675));
}

#[test]
fn one_third_with_eight_decimals() {
    assert_eq!(E8s::f0_33().val, big(33_333_333));
}

#[test]
fn constants_with_two_decimals() {
    assert_eq!(ECs::<2>::zero().val, big(0));
    assert_eq!(ECs::<2>::one().val, big(100));
    assert_eq!(ECs::<2>::f0_1().val, big(10));
    assert_eq!(ECs::<2>::f0_2().val, big(20));
    assert_eq!(ECs::<2>::f0_25().val, big(25));
    assert_eq!(ECs::<2>::f0_3().val, big(30));
    assert_eq!(ECs::<2>::f0_33().val, big(33));
    assert_eq!(ECs::<2>::f0_4().val, big(40));
    assert_eq!(ECs::<2>::f0_5().val, big(50));
    assert_eq!(ECs::<2>::f0_6().val, big(60));
    assert_eq!(ECs::<2>::f0_67().val, big(66));
    assert_eq!(ECs::<2>::f0_7().val, big(70));
    assert_eq!(ECs::<2>::f0_75().val, big(75));
    assert_eq!(ECs::<2>::f0_8().val, big(80));
    assert_eq!(ECs::<2>::f0_9().val, big(90));
    assert_eq!(ECs::<2>::two().val, big(200));
}

#[test]
fn constants_without_decimals_round_down() {
    assert_eq!(ECs::<0>::one().val, big(1));
    assert_eq!(ECs::<0>::two().val, big(2));
    assert_eq!(ECs::<0>::f0_1().val, big(0));
    assert_eq!(ECs::<0>::f0_5().val, big(0));
    assert_eq!(ECs::<0>::f0_9().val, big(0));
    assert_eq!(ECs::<1>::f0_25().val, big(2));
    assert_eq!(ECs::<1>::f0_75().val, big(7));
    assert_eq!(ECs::<1>::f0_67().val, big(6));
}

#[test]
fn scale_of_each_precision() {
    assert_eq!(ECs::<0>::base(), big(1));
    assert_eq!(ECs::<8>::base(), big(100_000_000));
    assert_eq!(ECs::<31>::base(), big(10_000_000_000_000_000_000_000_000_000_000));
    assert_eq!(ECs::<8>::base_d(3), big(1000));
    assert_eq!(ECs::<8>::base_d(0), big(1));
    assert_eq!(ECs::<8>::base_d(31), big(10u128.pow(31)));
}

#[test]
fn addition_in_every_form() {
    let a = cents(150);
    let b = cents(275);
    assert_eq!(&a + &b, cents(425));
    assert_eq!(a.clone() + b.clone(), cents(425));
    assert_eq!(a.clone() + &b, cents(425));
    assert_eq!(&a + b.clone(), cents(425));
    let mut c = a.clone();
    c += &b;
    assert_eq!(c, cents(425));
    c += b;
    assert_eq!(c, cents(700));
}

#[test]
fn subtraction_in_every_form() {
    let a = cents(1000);
    let b = cents(325);
    assert_eq!(&a - &b, cents(675));
    assert_eq!(a.clone() - b.clone(), cents(675));
    assert_eq!(a.clone() - &b, cents(675));
    assert_eq!(&a - b.clone(), cents(675));
    let mut c = a.clone();
    c -= &b;
    assert_eq!(c, cents(675));
    c -= b;
    assert_eq!(c, cents(350));
    assert_eq!(&a - &a, cents(0));
}

#[test]
fn multiplication_in_every_form() {
    let a = cents(150);
    let b = cents(200);
    assert_eq!(&a * &b, cents(300));
    assert_eq!(a.clone() * b.clone(), cents(300));
    assert_eq!(a.clone() * &b, cents(300));
    assert_eq!(&a * b.clone(), cents(300));
    let mut c = a.clone();
    c *= &b;
    assert_eq!(c, cents(300));
    c *= b;
    assert_eq!(c, cents(600));
}

#[test]
fn division_in_every_form() {
    let a = cents(300);
    let b = cents(200);
    assert_eq!(&a / &b, cents(150));
    assert_eq!(a.clone() / b.clone(), cents(150));
    assert_eq!(a.clone() / &b, cents(150));
    assert_eq!(&a / b.clone(), cents(150));
    let mut c = a.clone();
    c /= &b;
    assert_eq!(c, cents(150));
    c /= b;
    assert_eq!(c, cents(75));
}

#[test]
fn multiplication_rounds_down() {
    // 0.33 * 0.33 = 0.1089
    assert_eq!(cents(33) * cents(33), cents(10));
    // 0.01 * 0.99 = 0.0099
    assert_eq!(cents(1) * cents(99), cents(0));
    // 0.99999999 * 0.99999999 = 0.9999999800000001
    assert_eq!(E8s::from(99_999_999u64) * E8s::from(99_999_999u64), E8s::from(99_999_998u64));
}

#[test]
fn division_scales_up_before_it_divides() {
    // 1.00 / 3.00 = 0.33
    assert_eq!(cents(100) / cents(300), cents(33));
    // 2.00 / 3.00 = 0.66
    assert_eq!(cents(200) / cents(300), cents(66));
    // 0.01 / 0.02 = 0.50, which dividing first would turn into 0
    assert_eq!(cents(1) / cents(2), cents(50));
    assert_eq!(cents(0) / cents(7), cents(0));
}

#[test]
fn multiplication_truncates_toward_zero_on_samples() {
    let base = big(100);
    for a in [0u64, 1, 7, 33, 99, 100, 101, 12_345, 999_999] {
        for b in [0u64, 1, 3, 50, 99, 100, 250, 77_777] {
            let r = (cents(a) * cents(b)).val;
            let exact = big(a as u128) * big(b as u128);
            assert!(&r * &base <= exact);
            assert!(exact < (&r + big(1)) * &base);
        }
    }
}

#[test]
fn dividing_a_product_never_overshoots() {
    for a in [0u64, 1, 7, 33, 99, 100, 101, 12_345, 999_999] {
        for b in [1u64, 3, 50, 99, 100, 250, 77_777] {
            let back = (cents(a) * cents(b)) / cents(b);
            assert!(back <= cents(a));
        }
    }
    // 0.07 * 0.03 rounds to zero, and zero divided by 0.03 stays zero
    assert_eq!((cents(7) * cents(3)) / cents(3), cents(0));
}

#[test]
fn one_is_neutral() {
    for x in [0u64, 1, 99, 100, 12_345, u64::MAX] {
        assert_eq!(ECs::<2>::one() * cents(x), cents(x));
        assert_eq!(cents(x) * ECs::<2>::one(), cents(x));
        assert_eq!(cents(x) / ECs::<2>::one(), cents(x));
        assert_eq!(E8s::one() * E8s::from(x), E8s::from(x));
        assert_eq!(E8s::from(x) / E8s::one(), E8s::from(x));
    }
}

#[test]
fn arithmetic_beyond_128_bits() {
    let huge = ECs::<31>::from(u128::MAX);
    let sum = &huge + &huge;
    assert_eq!(sum.val, big(u128::MAX) * big(2));
    let square = &huge * &ECs::<31>::one();
    assert_eq!(square, huge);
    let product = &huge * &huge;
    assert_eq!(product.val, big(u128::MAX) * big(u128::MAX) / big(10u128.pow(31)));
    assert_eq!(&product / &huge, ECs::<31>::new(
        &product.val * big(10u128.pow(31)) / big(u128::MAX),
    ));
}

#[test]
fn try_sub_reports_underflow() {
    assert_eq!(cents(325).try_sub(&cents(1000)), Err(DecimalError::Underflow));
    assert_eq!(cents(0).try_sub(&cents(1)), Err(DecimalError::Underflow));
    assert_eq!(cents(1000).try_sub(&cents(325)), Ok(cents(675)));
    assert_eq!(cents(5).try_sub(&cents(5)), Ok(cents(0)));
}

#[test]
fn try_div_reports_a_zero_divisor() {
    assert_eq!(cents(100).try_div(&cents(0)), Err(DecimalError::DivisionByZero));
    assert_eq!(cents(0).try_div(&cents(0)), Err(DecimalError::DivisionByZero));
    assert_eq!(cents(100).try_div(&cents(300)), Ok(cents(33)));
}

#[test]
fn try_div_reports_an_unsupported_precision_first() {
    let a = ECs::<32>::from(1u64);
    assert_eq!(a.try_div(&ECs::<32>::from(0u64)), Err(DecimalError::UnsupportedPrecision));
    assert_eq!(a.try_div(&ECs::<32>::from(1u64)), Err(DecimalError::UnsupportedPrecision));
}

#[test]
fn square_root_takes_the_whole_part_only() {
    assert_eq!(cents(1600).sqrt(), cents(400));
    assert_eq!(cents(1699).sqrt(), cents(400));
    assert_eq!(cents(200).sqrt(), cents(100));
    assert_eq!(cents(399).sqrt(), cents(100));
    assert_eq!(cents(99).sqrt(), cents(0));
    assert_eq!(cents(0).sqrt(), cents(0));
    assert_eq!(E8s::from(2_500_000_000u64).sqrt(), E8s::from(500_000_000u64));
    assert_eq!(ECs::<0>::from(17u64).sqrt(), ECs::<0>::from(4u64));
}

#[test]
fn square_root_of_a_value_beyond_64_bits() {
    // the whole part is 10^30, whose root is 10^15
    let x = ECs::<2>::from(10u128.pow(32) + 99);
    assert_eq!(x.sqrt().val, big(10u128.pow(17)));
}

#[test]
fn conversion_to_the_same_precision_is_identity() {
    for x in [0u64, 1, 99, 12_345, u64::MAX] {
        assert_eq!(E8s::from(x).to_decimals::<8>(), E8s::from(x));
        assert_eq!(ECs::<0>::from(x).to_decimals::<0>(), ECs::<0>::from(x));
        assert_eq!(ECs::<31>::from(x).to_decimals::<31>(), ECs::<31>::from(x));
    }
}

#[test]
fn conversion_up_appends_zeros() {
    assert_eq!(cents(123).to_decimals::<8>(), E8s::from(123_000_000u64));
    assert_eq!(ECs::<0>::from(7u64).to_decimals::<31>().val, big(7 * 10u128.pow(31)));
    assert_eq!(cents(0).to_decimals::<8>(), E8s::from(0u64));
}

#[test]
fn conversion_down_drops_low_digits() {
    assert_eq!(E8s::from(123_456_789u64).to_decimals::<2>(), cents(123));
    assert_eq!(E8s::from(199_999_999u64).to_decimals::<2>(), cents(199));
    assert_eq!(E8s::from(999_999u64).to_decimals::<2>(), cents(0));
    assert_eq!(ECs::<31>::from(10u128.pow(31) * 5 + 1).to_decimals::<0>(), ECs::<0>::from(5u64));
}

#[test]
fn conversion_up_then_down_equals_the_direct_one() {
    let v = cents(12_345);
    assert_eq!(v.clone().to_decimals::<8>().to_decimals::<4>(), v.clone().to_decimals::<4>());
    assert_eq!(v.clone().to_decimals::<8>().to_decimals::<2>(), v.clone());
    assert_eq!(v.clone().to_decimals::<8>().to_decimals::<1>(), v.clone().to_decimals::<1>());
    assert_eq!(v.clone().to_decimals::<8>().to_decimals::<1>(), ECs::<1>::from(1_234u64));
}

#[test]
fn conversion_down_then_further_down_equals_the_direct_one() {
    let v = E8s::from(123_456_789u64);
    assert_eq!(v.clone().to_decimals::<4>().to_decimals::<2>(), v.clone().to_decimals::<2>());
    assert_eq!(v.clone().to_decimals::<4>().to_decimals::<2>(), cents(123));
}

#[test]
fn conversion_down_then_up_loses_the_low_digits() {
    let v = E8s::from(123_456_789u64);
    let there_and_back = v.clone().to_decimals::<2>().to_decimals::<8>();
    assert_eq!(there_and_back, E8s::from(123_000_000u64));
    assert!(there_and_back < v);
    assert_eq!(v.clone().to_decimals::<2>().to_decimals::<4>(), ECs::<4>::from(12_300u64));
    assert_eq!(v.clone().to_decimals::<4>(), ECs::<4>::from(12_345u64));
    // nothing is lost where the dropped digits are zeros
    let round = E8s::from(123_000_000u64);
    assert_eq!(round.clone().to_decimals::<2>().to_decimals::<8>(), round);
}

#[test]
fn to_dynamic_keeps_mantissa_and_precision() {
    let d = E8s::from(150_000_000u64).to_dynamic();
    assert_eq!(d.val, big(150_000_000));
    assert_eq!(d.decimals, 8);
    let d = ECs::<0>::from(3u64).to_dynamic();
    assert_eq!((d.val, d.decimals), (big(3), 0));
    let d = ECs::<31>::from(3u64).to_dynamic();
    assert_eq!((d.val, d.decimals), (big(3), 31));
}

#[test]
fn text_is_whole_part_point_remainder() {
    assert_eq!(cents(1234).to_string(), "12.34");
    assert_eq!(cents(0).to_string(), "0.0");
    assert_eq!(cents(100).to_string(), "1.0");
    assert_eq!(cents(99).to_string(), "0.99");
    assert_eq!(ECs::<0>::from(42u64).to_string(), "42.0");
    assert_eq!(E8s::from(u64::MAX).to_string(), "184467440737.9551615");
}

#[test]
fn text_does_not_pad_the_remainder() {
    assert_eq!(cents(105).to_string(), "1.5");
    assert_eq!(E8s::from(100_000_005u64).to_string(), "1.5");
    assert_eq!(E8s::from(5u64).to_string(), "0.5");
}

#[test]
fn stored_bytes_are_the_little_endian_mantissa() {
    assert_eq!(cents(1125).to_bytes(), vec![101, 4]);
    assert_eq!(cents(0).to_bytes(), vec![0]);
    assert_eq!(cents(255).to_bytes(), vec![255]);
    assert_eq!(cents(256).to_bytes(), vec![0, 1]);
    assert_eq!(E8s::from(u128::MAX).to_bytes(), vec![255u8; 16]);
}

#[test]
fn stored_bytes_read_back() {
    assert_eq!(ECs::<2>::from_bytes(&[101, 4]), cents(1125));
    assert_eq!(ECs::<2>::from_bytes(&[]), cents(0));
    assert_eq!(ECs::<2>::from_bytes(&[0]), cents(0));
    assert_eq!(ECs::<2>::from_bytes(&[101, 4, 0, 0]), cents(1125));
    assert_eq!(ECs::<2>::from_bytes(&[0, 0, 1]), cents(65_536));
}

#[test]
fn stored_bytes_round_trip() {
    for x in [0u128, 1, 255, 256, 65_535, 65_536, u64::MAX as u128, u128::MAX] {
        let v = E8s::from(x);
        assert_eq!(E8s::from_bytes(&v.to_bytes()), v);
    }
    let wide = E8s::from_bytes(&[0xffu8; 40]);
    assert_eq!(wide.to_bytes(), vec![0xffu8; 40]);
    assert_eq!(E8s::from_bytes(&wide.to_bytes()), wide);
}

#[test]
fn values_compare_by_mantissa() {
    assert!(cents(5) < cents(7));
    assert!(cents(7) > cents(5));
    assert!(cents(7) >= cents(7));
    assert!(cents(7) <= cents(7));
    assert_eq!(cents(7), cents(7));
    assert_ne!(cents(7), cents(8));
    assert!(E8s::from(u128::MAX) > E8s::from(u64::MAX));
    assert_eq!(cents(5).partial_cmp(&cents(7)), Some(std::cmp::Ordering::Less));
    assert_eq!(cents(7).partial_cmp(&cents(7)), Some(std::cmp::Ordering::Equal));
    assert_eq!(cents(9).partial_cmp(&cents(7)), Some(std::cmp::Ordering::Greater));
    assert_eq!(cents(5).cmp(&cents(7)), std::cmp::Ordering::Less);
    assert_eq!(cents(5).max(cents(7)), cents(7));
}

#[test]
fn default_is_zero_and_clone_is_equal() {
    assert_eq!(ECs::<2>::default(), cents(0));
    assert_eq!(E8s::default().val, big(0));
    let v = E8s::from(u128::MAX);
    assert_eq!(v.clone(), v);
    assert_eq!(v.clone().val, big(u128::MAX));
}

#[test]
fn from_integers_takes_the_mantissa() {
    assert_eq!(ECs::<2>::from(675u64).val, big(675));
    assert_eq!(ECs::<2>::from(u64::MAX).val, big(u64::MAX as u128));
    assert_eq!(ECs::<2>::from(u128::MAX).val, big(u128::MAX));
    assert_eq!(ECs::<2>::new(big(42)).val, big(42));
}

#[test]
fn stored_bytes_are_not_bounded_by_the_precision() {
    assert_eq!(ECs::<2>::from(u128::MAX).to_bytes().len(), 16);
    assert_eq!(ECs::<31>::from(1u64).to_bytes().len(), 1);
    assert_eq!(ECs::<0>::from(0u64).to_bytes().len(), 1);
}
