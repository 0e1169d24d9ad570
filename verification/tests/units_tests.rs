use endless_runner::units::{
    centred_offset, coord_add, coord_affine, coord_affine_down, coord_half, coord_half_neg,
    coord_neg, coord_sub, coord_times, distance, highest_of, highest_or_else, lowest_of,
    lowest_or_else, rows, snap_to_pixel, PIXEL,
};

#[test]
fn pixel_is_a_billion_units() {
    assert_eq!(PIXEL, 1_000_000_000);
}

#[test]
fn sums_stop_at_the_ends_of_the_range() {
    assert_eq!(coord_add(2, 3), 5);
    assert_eq!(coord_add(i64::MAX, 1), i64::MAX);
    assert_eq!(coord_add(i64::MIN, -1), i64::MIN);
    assert_eq!(coord_sub(2, 3), -1);
    assert_eq!(coord_sub(i64::MIN, 1), i64::MIN);
    assert_eq!(coord_sub(i64::MAX, -1), i64::MAX);
    assert_eq!(coord_neg(5), -5);
    assert_eq!(coord_neg(i64::MIN), i64::MAX);
}

#[test]
fn products_stop_at_the_ends_of_the_range() {
    assert_eq!(coord_times(15, 32 * PIXEL), 480 * PIXEL);
    assert_eq!(coord_times(0, i64::MIN), 0);
    assert_eq!(coord_times(u32::MAX, i64::MAX), i64::MAX);
    assert_eq!(coord_times(2, i64::MIN), i64::MIN);
    assert_eq!(coord_affine(-224 * PIXEL, 3, 32 * PIXEL), -128 * PIXEL);
    assert_eq!(coord_affine(i64::MAX, 1, 1), i64::MAX);
    assert_eq!(coord_affine_down(240 * PIXEL, 15, 32 * PIXEL), -240 * PIXEL);
    assert_eq!(coord_affine_down(i64::MIN, 1, 1), i64::MIN);
    assert_eq!(coord_affine_down(0, 1, i64::MIN), i64::MAX);
}

#[test]
fn halves_round_down() {
    assert_eq!(coord_half(7), 3);
    assert_eq!(coord_half(-7), -4);
    assert_eq!(coord_half(-8), -4);
    assert_eq!(coord_half(0), 0);
    assert_eq!(coord_half(i64::MIN), i64::MIN / 2);
    assert_eq!(coord_half_neg(7), -4);
    assert_eq!(coord_half_neg(-7), 3);
    assert_eq!(coord_half_neg(i64::MIN), 1i64 << 62);
}

#[test]
fn snapping_goes_down_to_the_whole_pixel() {
    assert_eq!(snap_to_pixel(0), 0);
    assert_eq!(snap_to_pixel(PIXEL - 1), 0);
    assert_eq!(snap_to_pixel(PIXEL), PIXEL);
    assert_eq!(snap_to_pixel(5 * PIXEL + 400_000_000), 5 * PIXEL);
    assert_eq!(snap_to_pixel(-1), -PIXEL);
    assert_eq!(snap_to_pixel(-PIXEL), -PIXEL);
    assert_eq!(snap_to_pixel(-PIXEL - 1), -2 * PIXEL);
    assert_eq!(snap_to_pixel(i64::MAX), 9_223_372_036 * PIXEL);
    assert_eq!(snap_to_pixel(i64::MIN), i64::MIN);
}

#[test]
fn distance_is_speed_times_time() {
    assert_eq!(distance(35, 10_000_000), 350_000_000);
    assert_eq!(distance(50, 1_000_000_000), 50 * PIXEL);
    assert_eq!(distance(0, u64::MAX), 0);
    assert_eq!(distance(7, 0), 0);
    assert_eq!(distance(u32::MAX, u64::MAX), i64::MAX);
}

#[test]
fn a_centred_row_starts_half_a_tile_inside() {
    assert_eq!(centred_offset(15, 32 * PIXEL), -224 * PIXEL);
    assert_eq!(centred_offset(1, 32 * PIXEL), 0);
    assert_eq!(centred_offset(0, 32 * PIXEL), 16 * PIXEL);
    assert_eq!(centred_offset(3, 5), -5);
    assert_eq!(centred_offset(1, 1), 0);
    assert_eq!(centred_offset(1, 7), 0);
    assert_eq!(centred_offset(2, 7), -4);
    assert_eq!(centred_offset(3, -5), 5);
    assert_eq!(centred_offset(u32::MAX, i64::MAX), i64::MIN);
}

#[test]
fn highest_and_lowest_start_from_a_given_height() {
    let ys = vec![3, -7, 12, 5];
    assert_eq!(highest_of(0, &ys), 12);
    assert_eq!(highest_of(100, &ys), 100);
    assert_eq!(lowest_of(0, &ys), -7);
    assert_eq!(lowest_of(-100, &ys), -100);
    assert_eq!(highest_of(-1, &Vec::new()), -1);
    assert_eq!(lowest_of(i64::MAX, &Vec::new()), i64::MAX);
}

#[test]
fn the_fallback_counts_only_without_members() {
    let ys = vec![-2000, -3000];
    assert_eq!(highest_or_else(-1000, &ys), -2000);
    assert_eq!(lowest_or_else(-5000, &ys), -3000);
    assert_eq!(highest_or_else(-1000, &Vec::new()), -1000);
    assert_eq!(lowest_or_else(0, &Vec::new()), 0);
}

#[test]
fn rows_stop_below_the_limit() {
    assert_eq!(rows(0, 10, 35), vec![0, 10, 20, 30]);
    assert_eq!(rows(0, 10, 30), vec![0, 10, 20]);
    assert_eq!(rows(0, 10, 31), vec![0, 10, 20, 30]);
    assert_eq!(rows(5, 10, 5), Vec::<i64>::new());
    assert_eq!(rows(6, 10, 5), Vec::<i64>::new());
    assert_eq!(rows(-25, 10, 0), vec![-25, -15, -5]);
    assert_eq!(rows(i64::MAX - 3, 2, i64::MAX), vec![i64::MAX - 3, i64::MAX - 1]);
    // Where nothing is below the limit the step does not matter.
    assert_eq!(rows(5, 0, 5), Vec::<i64>::new());
    assert_eq!(rows(9, -3, 5), Vec::<i64>::new());
}
