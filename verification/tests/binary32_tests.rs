use swaynimated::binary32::nearest_bits;

#[test]
fn small_ratios_match_the_division_of_floats() {
    // Both operands are exact as floats, so the division rounds once.
    for denominator in 1..=64u32 {
        for numerator in 0..=2_000u128 {
            assert_eq!(
                nearest_bits(numerator, denominator),
                (numerator as f32 / denominator as f32).to_bits(),
                "{} / {}",
                numerator,
                denominator
            );
        }
    }
}

#[test]
fn whole_numbers_match_the_conversion_to_float() {
    let mut value: u128 = 1;
    while value < (1u128 << 99) {
        for offset in 0..5u128 {
            for candidate in [value - offset.min(value), value + offset] {
                assert_eq!(nearest_bits(candidate, 1), (candidate as f32).to_bits(), "{}", candidate);
            }
        }
        value = value * 3 + 1;
    }
}

#[test]
fn ties_go_to_the_even_mantissa() {
    // 2^24 + 1 lies halfway between two floats.
    assert_eq!(nearest_bits(16_777_217, 1), 16_777_216.0f32.to_bits());
    assert_eq!(nearest_bits(16_777_219, 1), 16_777_220.0f32.to_bits());
    assert_eq!(nearest_bits(16_777_218, 1), 16_777_218.0f32.to_bits());
    // Just above the tie the larger one is nearer.
    assert_eq!(nearest_bits(2 * 16_777_217 + 1, 2), 16_777_218.0f32.to_bits());
}

#[test]
fn rounding_up_can_reach_the_next_power_of_two() {
    // 2^25 - 1 rounds up to 2^25.
    assert_eq!(nearest_bits(33_554_431, 1), 33_554_432.0f32.to_bits());
    assert_eq!(nearest_bits(u64::MAX as u128, 1), 18_446_744_073_709_551_616.0f32.to_bits());
}

#[test]
fn known_bit_patterns() {
    assert_eq!(nearest_bits(0, 7), 0);
    assert_eq!(nearest_bits(1, 1), 0x3F80_0000);
    assert_eq!(nearest_bits(1, 2), 0x3F00_0000);
    assert_eq!(nearest_bits(3, 2), 0x3FC0_0000);
    assert_eq!(nearest_bits(1, 3), 0x3EAA_AAAB);
    assert_eq!(nearest_bits(2, 3), 0x3F2A_AAAB);
    assert_eq!(nearest_bits(1, 10), 0x3DCC_CCCD);
    assert_eq!(nearest_bits(1, u32::MAX), 0x2F80_0000);
}

#[test]
fn seconds_from_nanoseconds() {
    assert_eq!(nearest_bits(1_500_000_000, 1_000_000_000), 1.5f32.to_bits());
    assert_eq!(nearest_bits(40_000_000, 1_000_000_000), 0.04f32.to_bits());
    assert_eq!(nearest_bits(86_400_000_000_000, 1_000_000_000), 86_400.0f32.to_bits());
    let bits = nearest_bits(u128::MAX, 1_000_000_000);
    let value = f32::from_bits(bits);
    assert!(value.is_finite());
    let expected = u128::MAX as f64 / 1e9;
    assert!((value as f64 - expected).abs() <= expected * 6e-8);
}
