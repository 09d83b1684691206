use too_many_cooks::pixels::half_extent;

fn expected(pixels: u32) -> u32 {
    (pixels as f32 / 2.0).to_bits()
}

#[test]
fn half_of_a_window_of_1200_by_750() {
    assert_eq!(half_extent(1200).to_bits(), 600.0f32.to_bits());
    assert_eq!(half_extent(750).to_bits(), 375.0f32.to_bits());
}

#[test]
fn half_of_nothing_is_positive_zero() {
    assert_eq!(half_extent(0).to_bits(), 0);
}

#[test]
fn half_of_one_pixel_is_a_half() {
    assert_eq!(half_extent(1).to_bits(), 0.5f32.to_bits());
}

#[test]
fn half_extent_agrees_with_the_hardware_on_small_counts() {
    for pixels in 0..5000u32 {
        assert_eq!(half_extent(pixels).to_bits(), expected(pixels), "{}", pixels);
    }
}

#[test]
fn half_extent_agrees_with_the_hardware_around_every_power_of_two() {
    for e in 0..32u32 {
        let p = 1u32 << e;
        for delta in 0..70u32 {
            let below = p.wrapping_sub(delta);
            let above = p.wrapping_add(delta);
            assert_eq!(half_extent(below).to_bits(), expected(below), "{}", below);
            assert_eq!(half_extent(above).to_bits(), expected(above), "{}", above);
        }
    }
}

#[test]
fn half_extent_rounds_ties_to_even() {
    // 2^24 + 1 lies halfway between 2^24 and 2^24 + 2, and 2^24 + 3 halfway between
    // 2^24 + 2 and 2^24 + 4
    assert_eq!(half_extent(16_777_217).to_bits(), 8_388_608.0f32.to_bits());
    assert_eq!(half_extent(16_777_219).to_bits(), 8_388_610.0f32.to_bits());
    assert_eq!(half_extent(u32::MAX).to_bits(), 2_147_483_648.0f32.to_bits());
}

#[test]
fn half_extent_agrees_with_the_hardware_on_scattered_counts() {
    let mut pixels: u32 = 1;
    for _ in 0..20000 {
        pixels = pixels.wrapping_mul(1_664_525).wrapping_add(1_013_904_223);
        assert_eq!(half_extent(pixels).to_bits(), expected(pixels), "{}", pixels);
    }
}
