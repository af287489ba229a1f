use vmix_bridge::binary32::truncate;

fn trunc(x: f32) -> i32 {
    truncate(x.to_bits())
}

#[test]
fn drops_the_fraction_of_a_positive_number() {
    assert_eq!(trunc(3.7), 3);
    assert_eq!(trunc(12.9), 12);
    assert_eq!(trunc(1.0), 1);
    assert_eq!(trunc(255.999), 255);
}

#[test]
fn drops_the_fraction_of_a_negative_number() {
    assert_eq!(trunc(-3.7), -3);
    assert_eq!(trunc(-12.9), -12);
    assert_eq!(trunc(-1.0), -1);
}

#[test]
fn numbers_below_one_give_zero() {
    assert_eq!(trunc(0.0), 0);
    assert_eq!(trunc(-0.0), 0);
    assert_eq!(trunc(0.999_999), 0);
    assert_eq!(trunc(-0.5), 0);
    assert_eq!(trunc(f32::MIN_POSITIVE), 0);
    assert_eq!(truncate(1), 0);
    assert_eq!(truncate(0x007f_ffff), 0);
}

#[test]
fn whole_numbers_stay_as_they_are() {
    assert_eq!(trunc(8_388_608.0), 8_388_608);
    assert_eq!(trunc(16_777_216.0), 16_777_216);
    assert_eq!(trunc(-16_777_216.0), -16_777_216);
    assert_eq!(trunc(2_147_483_520.0), 2_147_483_520);
    assert_eq!(trunc(-2_147_483_520.0), -2_147_483_520);
}

#[test]
fn numbers_beyond_the_range_are_held_to_its_bounds() {
    assert_eq!(trunc(2_147_483_648.0), i32::MAX);
    assert_eq!(trunc(-2_147_483_648.0), i32::MIN);
    assert_eq!(trunc(1.0e20), i32::MAX);
    assert_eq!(trunc(-1.0e20), i32::MIN);
    assert_eq!(trunc(f32::MAX), i32::MAX);
    assert_eq!(trunc(f32::MIN), i32::MIN);
    assert_eq!(trunc(f32::INFINITY), i32::MAX);
    assert_eq!(trunc(f32::NEG_INFINITY), i32::MIN);
}

#[test]
fn what_is_not_a_number_gives_zero() {
    assert_eq!(trunc(f32::NAN), 0);
    assert_eq!(truncate(0x7f80_0001), 0);
    assert_eq!(truncate(0xffc0_0000), 0);
    assert_eq!(truncate(0xffff_ffff), 0);
}

#[test]
fn agrees_with_the_cast_on_a_sweep_of_bit_patterns() {
    let mut bits: u32 = 0;
    loop {
        assert_eq!(truncate(bits), f32::from_bits(bits) as i32, "bits {:#010x}", bits);
        match bits.checked_add(65_521) {
            Some(next) => bits = next,
            None => break,
        }
    }
}

#[test]
fn agrees_with_the_cast_around_every_exponent() {
    for exponent in 0u32..256 {
        for sign in 0u32..2 {
            for fraction in [0u32, 1, 2, 0x40_0000, 0x55_5555, 0x7f_fffe, 0x7f_ffff] {
                let bits = (sign << 31) | (exponent << 23) | fraction;
                assert_eq!(truncate(bits), f32::from_bits(bits) as i32, "bits {:#010x}", bits);
            }
        }
    }
}
