use ray_trace::fp::{FP_HALF, FP_ONE, fp_abs, fp_add, fp_div, fp_mul, fp_neg, fp_of_u32,
    fp_of_usize, fp_sqrt, fp_sub};
use ray_trace::sampler::Sampler;

#[test]
fn add_and_sub_are_exact_in_range() {
    assert_eq!(fp_add(FP_ONE, FP_ONE), 2 * FP_ONE);
    assert_eq!(fp_sub(FP_ONE, FP_HALF), FP_HALF);
    assert_eq!(fp_add(-FP_ONE, FP_HALF), -FP_HALF);
}

#[test]
fn add_saturates_at_the_i64_range() {
    assert_eq!(fp_add(i64::MAX, 1), i64::MAX);
    assert_eq!(fp_add(i64::MIN, -1), i64::MIN);
    assert_eq!(fp_sub(i64::MIN, 1), i64::MIN);
    assert_eq!(fp_neg(i64::MIN), i64::MAX);
}

#[test]
fn mul_is_exact_on_whole_numbers() {
    assert_eq!(fp_mul(2 * FP_ONE, 3 * FP_ONE), 6 * FP_ONE);
    assert_eq!(fp_mul(-3 * FP_ONE, FP_HALF), -3 * FP_HALF);
    assert_eq!(fp_mul(0, 12345), 0);
}

#[test]
fn mul_truncates_toward_zero() {
    // 1/65536 * 1/65536 is far below one unit.
    assert_eq!(fp_mul(1, 1), 0);
    assert_eq!(fp_mul(-1, 1), 0);
}

#[test]
fn div_truncates_toward_zero() {
    // 1 / 3 = 0.333... -> 21845 units (0.3333282...)
    assert_eq!(fp_div(FP_ONE, 3 * FP_ONE), 21845);
    assert_eq!(fp_div(-FP_ONE, 3 * FP_ONE), -21845);
    assert_eq!(fp_div(FP_ONE, -3 * FP_ONE), -21845);
}

#[test]
fn div_by_zero_yields_zero() {
    assert_eq!(fp_div(FP_ONE, 0), 0);
    assert_eq!(fp_div(-42, 0), 0);
}

#[test]
fn sqrt_is_exact_on_squares() {
    assert_eq!(fp_sqrt(4 * FP_ONE), 2 * FP_ONE);
    assert_eq!(fp_sqrt(FP_ONE), FP_ONE);
    assert_eq!(fp_sqrt(FP_ONE / 4), FP_HALF);
    assert_eq!(fp_sqrt(0), 0);
    assert_eq!(fp_sqrt(-FP_ONE), 0);
}

#[test]
fn abs_and_neg() {
    assert_eq!(fp_abs(-5 * FP_ONE), 5 * FP_ONE);
    assert_eq!(fp_abs(5 * FP_ONE), 5 * FP_ONE);
    assert_eq!(fp_neg(FP_ONE), -FP_ONE);
}

#[test]
fn conversions_scale_by_one() {
    assert_eq!(fp_of_u32(7), 7 * FP_ONE);
    assert_eq!(fp_of_usize(7usize), 7 * FP_ONE);
    assert_eq!(fp_of_u32(0), 0);
}

#[test]
fn sampler_is_deterministic_and_in_unit_range() {
    let mut a = Sampler::new(256);
    let mut b = Sampler::new(256);
    for _ in 0..100 {
        let ua = a.next_unit();
        let ub = b.next_unit();
        assert_eq!(ua, ub);
        assert!(0 <= ua && ua < FP_ONE);
    }
    let mut c = Sampler::new(257);
    let mut d = Sampler::new(256);
    let mut differs = false;
    for _ in 0..16 {
        if c.next_unit() != d.next_unit() {
            differs = true;
        }
    }
    assert!(differs);
}

#[test]
fn sampler_zero_seed_is_usable() {
    let mut s = Sampler::new(0);
    let u = s.next_unit();
    assert!(0 <= u && u < FP_ONE);
    assert_ne!(s.state, 0);
}
