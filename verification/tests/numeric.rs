//! Fixed-point scalar and square roots.
use oxifoc::foc::numeric::conservative_magnitude;
use oxifoc::foc::roots::{integer_sqrt_ceil_u32, integer_sqrt_u64};
use oxifoc::foc::{Fixed, Scalar};

#[test]
fn fixed_multiplication_keeps_fractional_precision() {
    let result = Fixed::ratio(3, 2) * Fixed::ratio(-7, 4);
    assert_eq!(result.integer(), -2);
    assert!((result.to_bits() + 172_032).unsigned_abs() <= 1);
}

#[test]
fn fixed_square_root_uses_the_same_scale() {
    assert_eq!(Fixed::from_integer(9).sqrt(), Fixed::from_integer(3));
    assert!((Fixed::from_integer(2).sqrt().to_bits() - 92_681).unsigned_abs() <= 1);
}

#[test]
fn actuator_quantization_is_toward_zero() {
    assert_eq!(Fixed::ratio(19, 10).trunc(), Fixed::from_integer(1));
    assert_eq!(Fixed::ratio(-19, 10).trunc(), Fixed::from_integer(-1));
}

#[test]
fn u32_square_root_rounds_up_without_overflow() {
    let cases = [
        (0, 0),
        (1, 1),
        (2, 2),
        (3, 2),
        (4, 2),
        (5, 3),
        (15, 4),
        (16, 4),
        (17, 5),
        (u32::MAX, 65_536),
    ];
    for (radicand, expected) in cases {
        assert_eq!(integer_sqrt_ceil_u32(radicand), expected);
    }
}

#[test]
fn fixed_vector_limit_is_conservative_and_direction_preserving() {
    let limit = Fixed::from_integer(1_273);
    let fractions: [i32; 5] = [0, 1, 17, 127, 255];
    for direct_ticks in [-3_000_i32, -1_274, -1_000, -1, 0, 1, 1_000, 1_274, 3_000] {
        for quadrature_ticks in [-3_000_i32, -1_274, -1_000, -1, 0, 1, 1_000, 1_274, 3_000] {
            for fraction in fractions {
                let fraction_bits = fraction << 8;
                let direct = Fixed::from_bits(
                    (direct_ticks << 16).saturating_add(fraction_bits),
                );
                let quadrature = Fixed::from_bits(
                    (quadrature_ticks << 16).saturating_sub(fraction_bits),
                );
                let was_limited = Fixed::magnitude_exceeds(direct, quadrature, limit);
                let (applied_d, applied_q, scale) =
                    Fixed::limit_vector(direct, quadrature, limit);

                assert!(!Fixed::magnitude_exceeds(applied_d, applied_q, limit));
                if was_limited {
                    assert!(scale < Fixed::one());
                    let cross_product = i128::from(applied_d.to_bits())
                        * i128::from(quadrature.to_bits())
                        - i128::from(applied_q.to_bits()) * i128::from(direct.to_bits());
                    let quantization_bound = i128::from(direct.to_bits().unsigned_abs())
                        + i128::from(quadrature.to_bits().unsigned_abs());
                    assert!(cross_product.abs() <= quantization_bound);
                } else {
                    assert_eq!(
                        (applied_d, applied_q, scale),
                        (direct, quadrature, Fixed::one())
                    );
                }
            }
        }
    }
}

#[test]
fn scaled_magnitude_bounds_the_exact_root_across_the_fixed_domain() {
    let mut state = 0x6d2b_79f5_u32;
    for _ in 0..100_000 {
        state = state.wrapping_mul(1_664_525).wrapping_add(1_013_904_223);
        let direct = state & 0x7fff_ffff;
        state = state.wrapping_mul(1_664_525).wrapping_add(1_013_904_223);
        let quadrature = state & 0x7fff_ffff;
        let exact_squared = u64::from(direct) * u64::from(direct)
            + u64::from(quadrature) * u64::from(quadrature);
        let exact_floor = integer_sqrt_u64(exact_squared);
        let exact_ceil = exact_floor + u64::from(exact_floor * exact_floor != exact_squared);
        let (scaled, shift) = conservative_magnitude(direct, quadrature);
        let estimate = u64::from(scaled) << shift;
        let quantum = 1_u64 << shift;

        assert!(estimate >= exact_ceil);
        assert!(estimate - exact_ceil <= 3 * quantum);
    }
}
