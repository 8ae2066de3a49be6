use bevy_arca::single::Single;

fn truncated(value: f32) -> i32 {
    Single::from_bits(value.to_bits()).to_i32()
}

#[test]
fn single_keeps_its_bit_pattern() {
    assert_eq!(Single::from_bits(0x3e4c_cccd).to_bits(), 0x3e4c_cccd);
    assert_eq!(f32::from_bits(Single::zero().to_bits()), 0.0);
    assert_eq!(f32::from_bits(Single::one().to_bits()), 1.0);
    assert_ne!(Single::from_bits((-0.0f32).to_bits()), Single::zero());
}

#[test]
fn to_i32_rounds_toward_zero() {
    assert_eq!(truncated(800.0), 800);
    assert_eq!(truncated(600.0), 600);
    assert_eq!(truncated(1024.0), 1024);
    assert_eq!(truncated(533.3333), 533);
    assert_eq!(truncated(0.999), 0);
    assert_eq!(truncated(1.0), 1);
    assert_eq!(truncated(1.5), 1);
    assert_eq!(truncated(-1.5), -1);
    assert_eq!(truncated(-0.5), 0);
    assert_eq!(truncated(0.0), 0);
    assert_eq!(truncated(-0.0), 0);
    assert_eq!(truncated(16777216.0), 16777216);
    assert_eq!(truncated(16777218.0), 16777218);
    assert_eq!(truncated(2147483520.0), 2147483520);
}

#[test]
fn to_i32_clamps_and_maps_nan_to_zero() {
    assert_eq!(truncated(2147483648.0), i32::MAX);
    assert_eq!(truncated(-2147483648.0), i32::MIN);
    assert_eq!(truncated(-2147483904.0), i32::MIN);
    assert_eq!(truncated(1.0e30), i32::MAX);
    assert_eq!(truncated(-1.0e30), i32::MIN);
    assert_eq!(truncated(f32::INFINITY), i32::MAX);
    assert_eq!(truncated(f32::NEG_INFINITY), i32::MIN);
    assert_eq!(truncated(f32::NAN), 0);
    assert_eq!(truncated(f32::MIN_POSITIVE), 0);
    assert_eq!(truncated(f32::from_bits(1)), 0);
}

#[test]
fn to_i32_agrees_with_the_cast_on_many_patterns() {
    let mut bits: u32 = 0;
    let mut seen: u32 = 0;
    loop {
        let value = f32::from_bits(bits);
        assert_eq!(Single::from_bits(bits).to_i32(), value as i32, "bits {:#x}", bits);
        seen += 1;
        match bits.checked_add(0x0000_fff1) {
            Some(next) => bits = next,
            None => break,
        }
    }
    assert!(seen > 65000);
    for exponent in 0..=255u32 {
        for fraction in [0u32, 1, 0x40_0000, 0x7f_ffff] {
            for sign in [0u32, 0x8000_0000] {
                let pattern = sign | (exponent << 23) | fraction;
                assert_eq!(
                    Single::from_bits(pattern).to_i32(),
                    f32::from_bits(pattern) as i32,
                    "bits {:#x}",
                    pattern
                );
            }
        }
    }
}
