use emotional_core::binary32::millionths_from_binary32;

fn read(x: f32) -> Option<i32> {
    millionths_from_binary32(x.to_bits())
}

fn nearest_millionth(x: f32) -> i64 {
    ((x as f64).abs() * 1_000_000.0 + 0.5).floor() as i64 * if x < 0.0 { -1 } else { 1 }
}

#[test]
fn decimal_fractions_are_read_exactly() {
    assert_eq!(read(0.0), Some(0));
    assert_eq!(read(1.0), Some(1_000_000));
    assert_eq!(read(-1.0), Some(-1_000_000));
    assert_eq!(read(0.5), Some(500_000));
    assert_eq!(read(0.9), Some(900_000));
    assert_eq!(read(0.54), Some(540_000));
    assert_eq!(read(0.4), Some(400_000));
    assert_eq!(read(0.6), Some(600_000));
    assert_eq!(read(0.2), Some(200_000));
    assert_eq!(read(0.7), Some(700_000));
    assert_eq!(read(0.1), Some(100_000));
    assert_eq!(read(-0.25), Some(-250_000));
    assert_eq!(read(3.0), Some(3_000_000));
    assert_eq!(read(0.000001), Some(1));
    assert_eq!(read(-0.000001), Some(-1));
}

#[test]
fn negative_zero_reads_as_zero() {
    assert_eq!(read(-0.0), Some(0));
    assert_eq!(millionths_from_binary32(0x8000_0000), Some(0));
}

#[test]
fn small_numbers_round_to_the_nearest_millionth() {
    assert_eq!(read(0.0000004), Some(0));
    assert_eq!(read(0.0000006), Some(1));
    assert_eq!(read(-0.0000006), Some(-1));
    assert_eq!(read(0.0000014), Some(1));
    assert_eq!(read(0.0000016), Some(2));
    assert_eq!(read(1.0e-30), Some(0));
    assert_eq!(read(f32::MIN_POSITIVE), Some(0));
    assert_eq!(millionths_from_binary32(1), Some(0));
    assert_eq!(millionths_from_binary32(0x007f_ffff), Some(0));
}

#[test]
fn numbers_between_millionths_go_to_the_nearer() {
    assert_eq!(read(0.5 / 1_048_576.0), Some(0));
    assert_eq!(read(1.5), Some(1_500_000));
    assert_eq!(read(0.00000095367431640625), Some(1));
    assert_eq!(read(2.5 / 1024.0 / 1024.0), Some(2));
}

#[test]
fn infinities_and_nans_are_refused() {
    assert_eq!(read(f32::INFINITY), None);
    assert_eq!(read(f32::NEG_INFINITY), None);
    assert_eq!(read(f32::NAN), None);
    assert_eq!(read(-f32::NAN), None);
    assert_eq!(millionths_from_binary32(0x7f80_0000), None);
    assert_eq!(millionths_from_binary32(0xff80_0000), None);
    assert_eq!(millionths_from_binary32(0x7f80_0001), None);
    assert_eq!(millionths_from_binary32(0x7fc0_0000), None);
    assert_eq!(millionths_from_binary32(0xffff_ffff), None);
    assert_eq!(millionths_from_binary32(0x7fff_ffff), None);
}

#[test]
fn numbers_too_large_are_refused() {
    assert_eq!(read(2147.0), Some(2_147_000_000));
    assert_eq!(read(-2147.0), Some(-2_147_000_000));
    assert_eq!(read(2147.48), Some(2_147_479_980));
    assert_eq!(read(2147.5), None);
    assert_eq!(read(-2147.5), None);
    assert_eq!(read(4096.0), None);
    assert_eq!(read(8_388_608.0), None);
    assert_eq!(read(16_777_216.0), None);
    assert_eq!(read(1.0e20), None);
    assert_eq!(read(f32::MAX), None);
    assert_eq!(read(f32::MIN), None);
}

#[test]
fn reading_agrees_with_rounding_in_double_precision() {
    let mut bits: u32 = 0;
    let mut checked = 0;
    loop {
        for b in [bits, bits | 0x8000_0000] {
            let x = f32::from_bits(b);
            let expected = if x.is_finite() && nearest_millionth(x).abs() <= i32::MAX as i64 {
                Some(nearest_millionth(x) as i32)
            } else {
                None
            };
            assert_eq!(millionths_from_binary32(b), expected);
            checked += 1;
        }
        match bits.checked_add(0x0001_2345) {
            Some(next) if next < 0x8000_0000 => bits = next,
            _ => break,
        }
    }
    assert!(checked > 50_000);
}
