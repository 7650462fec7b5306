use sharpie::measure::{Measure, Metric};
use sharpie::num::{icbrt, iroot5, isqrt, Num, ROOT5_LIMIT, RUNGS, SCALE};

fn micro(m: i64) -> Num {
    Num::Micro(m)
}

#[test]
fn scale_is_a_million() {
    assert_eq!(SCALE, 1_000_000);
    assert_eq!(RUNGS, 20);
}

#[test]
fn from_u32_scales() {
    assert_eq!(Num::from_u32(0), micro(0));
    assert_eq!(Num::from_u32(7), micro(7_000_000));
    assert_eq!(Num::from_u32(u32::MAX), micro(4_294_967_295_000_000));
}

#[test]
fn from_i64_is_undefined_beyond_range() {
    assert_eq!(Num::from_i64(-3), micro(-3_000_000));
    assert_eq!(Num::from_i64(9_223_372_036_854), micro(9_223_372_036_854_000_000));
    assert_eq!(Num::from_i64(9_223_372_036_855), Num::Undefined);
    assert_eq!(Num::from_i64(i64::MIN), Num::Undefined);
}

#[test]
fn millionths_of_a_number() {
    assert_eq!(micro(12).to_micro(), Some(12));
    assert_eq!(Num::Undefined.to_micro(), None);
    assert!(micro(0).is_defined());
    assert!(!Num::Undefined.is_defined());
    assert_eq!(Num::default(), micro(0));
}

#[test]
fn plus_and_minus_are_exact() {
    assert_eq!(micro(1_500_000).plus(micro(2_250_001)), micro(3_750_001));
    assert_eq!(micro(1_500_000).minus(micro(2_250_001)), micro(-750_001));
    assert_eq!(micro(i64::MAX).plus(micro(1)), Num::Undefined);
    assert_eq!(micro(i64::MIN).minus(micro(1)), Num::Undefined);
    assert_eq!(micro(i64::MAX).plus(micro(i64::MIN)), micro(-1));
    assert_eq!(Num::Undefined.plus(micro(1)), Num::Undefined);
    assert_eq!(micro(1).minus(Num::Undefined), Num::Undefined);
}

#[test]
fn neg_and_abs() {
    assert_eq!(micro(5).neg(), micro(-5));
    assert_eq!(micro(-5).abs(), micro(5));
    assert_eq!(micro(5).abs(), micro(5));
    assert_eq!(micro(i64::MIN).neg(), Num::Undefined);
    assert_eq!(micro(i64::MIN).abs(), Num::Undefined);
    assert_eq!(Num::Undefined.neg(), Num::Undefined);
    assert_eq!(Num::Undefined.abs(), Num::Undefined);
}

#[test]
fn times_cuts_toward_zero() {
    // 1.5 * 2.5 = 3.75
    assert_eq!(micro(1_500_000).times(micro(2_500_000)), micro(3_750_000));
    // 0.000001 * 0.999999 = 0.000000999999 -> 0
    assert_eq!(micro(1).times(micro(999_999)), micro(0));
    assert_eq!(micro(-1).times(micro(999_999)), micro(0));
    // 0.333333 * 3 = 0.999999
    assert_eq!(micro(333_333).times(micro(3_000_000)), micro(999_999));
    // -1.000001 * 1.000001 = -1.000002000001 -> -1.000002
    assert_eq!(micro(-1_000_001).times(micro(1_000_001)), micro(-1_000_002));
    assert_eq!(micro(i64::MAX).times(micro(1_000_001)), Num::Undefined);
    assert_eq!(micro(i64::MIN).times(micro(1_000_000)), micro(i64::MIN));
    assert_eq!(micro(i64::MIN).times(micro(-1_000_000)), Num::Undefined);
    assert_eq!(Num::Undefined.times(micro(0)), Num::Undefined);
}

#[test]
fn over_cuts_toward_zero() {
    // 1 / 3 = 0.333333
    assert_eq!(micro(1_000_000).over(micro(3_000_000)), micro(333_333));
    assert_eq!(micro(-1_000_000).over(micro(3_000_000)), micro(-333_333));
    assert_eq!(micro(1_000_000).over(micro(-3_000_000)), micro(-333_333));
    assert_eq!(micro(-1_000_000).over(micro(-3_000_000)), micro(333_333));
    // 2 / 3 = 0.666666
    assert_eq!(micro(2_000_000).over(micro(3_000_000)), micro(666_666));
    assert_eq!(micro(7_000_000).over(micro(7_000_000)), micro(1_000_000));
    assert_eq!(micro(1_000_000).over(micro(0)), Num::Undefined);
    assert_eq!(micro(0).over(micro(0)), Num::Undefined);
    // 9e12 / 0.000001 leaves the range
    assert_eq!(micro(9_000_000_000_000_000_000).over(micro(1)), Num::Undefined);
    assert_eq!(micro(1).over(Num::Undefined), Num::Undefined);
}

#[test]
fn isqrt_rounds_down() {
    assert_eq!(isqrt(0), 0);
    assert_eq!(isqrt(1), 1);
    assert_eq!(isqrt(3), 1);
    assert_eq!(isqrt(4), 2);
    assert_eq!(isqrt(999_999), 999);
    assert_eq!(isqrt(1_000_000), 1000);
    assert_eq!(isqrt(15_999_999_999_999_999_999_999_999), 3_999_999_999_999);
    assert_eq!(isqrt(u128::MAX), 18_446_744_073_709_551_615);
}

#[test]
fn sqrt_cuts_after_six_decimals() {
    assert_eq!(micro(2_000_000).sqrt(), micro(1_414_213));
    assert_eq!(micro(4_000_000).sqrt(), micro(2_000_000));
    assert_eq!(micro(1_000_000).sqrt(), micro(1_000_000));
    assert_eq!(micro(250_000).sqrt(), micro(500_000));
    assert_eq!(micro(0).sqrt(), micro(0));
    assert_eq!(micro(1).sqrt(), micro(1_000));
    assert_eq!(micro(i64::MAX).sqrt(), micro(3_037_000_499_976));
    assert_eq!(micro(-1).sqrt(), Num::Undefined);
    assert_eq!(Num::Undefined.sqrt(), Num::Undefined);
}

#[test]
fn powf_by_zero_is_one() {
    assert_eq!(micro(5_000_000).powf(micro(0)), micro(1_000_000));
    assert_eq!(micro(-5_000_000).powf(micro(0)), micro(1_000_000));
    assert_eq!(Num::Undefined.powf(micro(0)), micro(1_000_000));
}

#[test]
fn powf_by_one_is_the_base() {
    assert_eq!(micro(5_000_000).powf(micro(1_000_000)), micro(5_000_000));
    assert_eq!(micro(0).powf(micro(1_000_000)), micro(0));
}

#[test]
fn powf_takes_roots() {
    // 16 ^ 0.5 = 4, 16 ^ 0.25 = 2, 16 ^ 0.75 = 8
    assert_eq!(micro(16_000_000).powf(micro(500_000)), micro(4_000_000));
    assert_eq!(micro(16_000_000).powf(micro(250_000)), micro(2_000_000));
    assert_eq!(micro(16_000_000).powf(micro(750_000)), micro(8_000_000));
    // 1000 ^ 0.75 = 177.827941...
    assert_eq!(micro(1_000_000_000).powf(micro(750_000)), micro(177_827_929));
    assert_eq!(micro(1_000_000).powf(micro(100_000)), micro(1_000_000));
    assert_eq!(micro(0).powf(micro(500_000)), micro(0));
}

#[test]
fn powf_is_near_the_real_power() {
    let cases = [(27.0_f64, 333_333_i64), (32.0, 200_000), (1024.0, 100_000), (0.5, 880_000), (7000.0, 200_000)];
    for (base, exponent) in cases {
        let got = match micro((base * 1e6) as i64).powf(micro(exponent)) {
            Num::Micro(m) => m as f64 / 1e6,
            Num::Undefined => panic!("undefined"),
        };
        let want = base.powf(exponent as f64 / 1e6);
        assert!((got - want).abs() <= want * 5e-5, "{} ^ {}: {} against {}", base, exponent, got, want);
    }
}

#[test]
fn powf_is_undefined_outside_its_domain() {
    assert_eq!(micro(-1).powf(micro(500_000)), Num::Undefined);
    assert_eq!(micro(4_000_000).powf(micro(1_000_001)), Num::Undefined);
    assert_eq!(micro(4_000_000).powf(micro(-1)), Num::Undefined);
    assert_eq!(micro(4_000_000).powf(Num::Undefined), Num::Undefined);
    assert_eq!(Num::Undefined.powf(micro(500_000)), Num::Undefined);
}

#[test]
fn comparisons_hold_of_numbers_only() {
    assert!(micro(1).lt(micro(2)));
    assert!(!micro(2).lt(micro(2)));
    assert!(micro(2).le(micro(2)));
    assert!(micro(3).gt(micro(2)));
    assert!(!micro(2).gt(micro(2)));
    assert!(micro(2).ge(micro(2)));
    for other in [micro(0), Num::Undefined] {
        assert!(!Num::Undefined.lt(other));
        assert!(!Num::Undefined.le(other));
        assert!(!Num::Undefined.gt(other));
        assert!(!Num::Undefined.ge(other));
        assert!(!other.lt(Num::Undefined));
        assert!(!other.le(Num::Undefined));
        assert!(!other.gt(Num::Undefined));
        assert!(!other.ge(Num::Undefined));
    }
}

#[test]
fn below_compares_with_a_fraction() {
    // five sixths lies between 0.833333 and 0.833334
    assert!(micro(833_333).below(5, 6));
    assert!(!micro(833_334).below(5, 6));
    // 1.1111112 lies between 1.111111 and 1.111112
    assert!(micro(1_111_111).below(11_111_112, 10_000_000));
    assert!(!micro(1_111_112).below(11_111_112, 10_000_000));
    assert!(micro(i64::MIN).below(0, i64::MAX));
    assert!(!micro(i64::MAX).below(i64::MAX, 1_000_000));
    assert!(!Num::Undefined.below(5, 6));
}

#[test]
fn min_and_max_yield_to_a_number() {
    assert_eq!(micro(1).min(micro(2)), micro(1));
    assert_eq!(micro(2).min(micro(1)), micro(1));
    assert_eq!(micro(1).max(micro(2)), micro(2));
    assert_eq!(micro(2).max(micro(1)), micro(2));
    assert_eq!(Num::Undefined.min(micro(2)), micro(2));
    assert_eq!(micro(2).min(Num::Undefined), micro(2));
    assert_eq!(Num::Undefined.max(micro(-2)), micro(-2));
    assert_eq!(micro(-2).max(Num::Undefined), micro(-2));
    assert_eq!(Num::Undefined.min(Num::Undefined), Num::Undefined);
    assert_eq!(Num::Undefined.max(Num::Undefined), Num::Undefined);
}

#[test]
fn trunc_u32_drops_the_fraction() {
    assert_eq!(micro(115_587_000).trunc_u32(), 115);
    assert_eq!(micro(999_999).trunc_u32(), 0);
    assert_eq!(micro(-1_000_000).trunc_u32(), 0);
    assert_eq!(micro(4_294_967_295_999_999).trunc_u32(), u32::MAX);
    assert_eq!(micro(4_294_967_296_000_000).trunc_u32(), u32::MAX);
    assert_eq!(Num::Undefined.trunc_u32(), 0);
}

#[test]
fn icbrt_rounds_down() {
    assert_eq!(icbrt(0), 0);
    assert_eq!(icbrt(1), 1);
    assert_eq!(icbrt(7), 1);
    assert_eq!(icbrt(8), 2);
    assert_eq!(icbrt(26), 2);
    assert_eq!(icbrt(27), 3);
    assert_eq!(icbrt(999_999_999_999), 9_999);
    assert_eq!(icbrt(1_000_000_000_000), 10_000);
    assert_eq!(icbrt(9_999_999_999_999_999_999_999_999_999_999), 21_544_346_900);
    assert_eq!(icbrt(u128::MAX), 6_981_463_658_331);
}

#[test]
fn cbrt_cuts_after_six_decimals() {
    assert_eq!(micro(27_000_000).cbrt(), micro(3_000_000));
    assert_eq!(micro(2_000_000).cbrt(), micro(1_259_921));
    assert_eq!(micro(1_000_000).cbrt(), micro(1_000_000));
    assert_eq!(micro(125_000).cbrt(), micro(500_000));
    assert_eq!(micro(0).cbrt(), micro(0));
    assert_eq!(micro(1).cbrt(), micro(10_000));
    assert_eq!(micro(i64::MAX).cbrt(), micro(20_971_519_999));
    assert_eq!(micro(-1).cbrt(), Num::Undefined);
    assert_eq!(Num::Undefined.cbrt(), Num::Undefined);
}

#[test]
fn iroot5_rounds_down() {
    assert_eq!(iroot5(0), 0);
    assert_eq!(iroot5(1), 1);
    assert_eq!(iroot5(31), 1);
    assert_eq!(iroot5(32), 2);
    assert_eq!(iroot5(242), 2);
    assert_eq!(iroot5(243), 3);
    assert_eq!(iroot5(99_999), 9);
    assert_eq!(iroot5(100_000), 10);
    assert_eq!(iroot5(312_499_999_999_999_999_999_999_999_999_999_999_999), 49_999_999);
    assert_eq!(iroot5(u128::MAX), 50_859_008);
}

#[test]
fn root5_cuts_after_six_decimals() {
    assert_eq!(micro(32_000_000).root5(), micro(2_000_000));
    assert_eq!(micro(243_000_000).root5(), micro(3_000_000));
    assert_eq!(micro(2_000_000).root5(), micro(1_148_698));
    assert_eq!(micro(1_000_000).root5(), micro(1_000_000));
    assert_eq!(micro(31_250).root5(), micro(500_000));
    assert_eq!(micro(0).root5(), micro(0));
    assert_eq!(micro(1).root5(), micro(63_095));
    assert_eq!(micro(-1).root5(), Num::Undefined);
    assert_eq!(Num::Undefined.root5(), Num::Undefined);
}

#[test]
fn root5_has_a_limit() {
    assert_eq!(ROOT5_LIMIT, 340_282_366_920_939);
    assert_eq!(micro(ROOT5_LIMIT - 1).root5(), micro(50_859_008));
    assert_eq!(micro(312_500_000_000_000).root5(), micro(50_000_000));
    assert_eq!(micro(ROOT5_LIMIT).root5(), Num::Undefined);
    assert_eq!(micro(i64::MAX).root5(), Num::Undefined);
}

#[test]
fn roots_are_near_the_real_roots() {
    for x in [0.001_f64, 0.5, 1.0, 2.0, 7.0, 1000.0, 12000.0, 250_000_000.0] {
        let n = micro((x * 1e6) as i64);
        let float = |v: Num| match v {
            Num::Micro(m) => m as f64 / 1e6,
            Num::Undefined => panic!("undefined"),
        };
        assert!((float(n.sqrt()) - x.sqrt()).abs() < 1e-6 + x.sqrt() * 1e-12);
        assert!((float(n.cbrt()) - x.cbrt()).abs() < 1e-6 + x.cbrt() * 1e-12);
        assert!((float(n.root5()) - x.powf(0.2)).abs() < 1e-6 + x.powf(0.2) * 1e-12);
    }
}

#[test]
fn metric_worth_of_feet_and_pounds() {
    let m = Metric::imperial();
    assert_eq!(m, Metric::default());
    assert_eq!(m.worth(Measure::LengthLong), Num::Micro(304_800));
    assert_eq!(m.worth(Measure::LengthSmall), Num::Micro(25_400_000));
    assert_eq!(m.worth(Measure::Weight), Num::Micro(453_592));
    assert_eq!(m.worth(Measure::Area), Num::Micro(92_903));
    assert_eq!(m.worth(Measure::WeightPerArea), Num::Micro(4_882_428));
    assert_eq!(m.worth(Measure::Power), Num::Micro(745_700));
    assert_eq!(m.of(Num::Micro(100_000_000), Measure::LengthLong), Num::Micro(30_480_000));
    assert_eq!(m.of(Num::Micro(12_000_000), Measure::LengthSmall), Num::Micro(304_800_000));
    assert_eq!(m.of(Num::Micro(2_204_620_000), Measure::Weight), Num::Micro(999_997_995));
    assert_eq!(m.of(Num::Micro(20_160_000_000), Measure::Area), Num::Micro(1_872_924_480));
    assert_eq!(m.of(Num::Micro(1_000_000), Measure::WeightPerArea), Num::Micro(4_882_428));
    assert_eq!(m.of(Num::Micro(14_000_000_000), Measure::Power), Num::Micro(10_439_800_000));
    assert_eq!(m.of(Num::Undefined, Measure::Power), Num::Undefined);
    assert_eq!(m.of(Num::Micro(-3_000_000), Measure::LengthLong), Num::Micro(-914_400));
}
