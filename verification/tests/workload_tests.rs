use fbo_bench::workload::cos_wave;
use fbo_bench::workload::HALF_EXTENT_MAX;
use fbo_bench::workload::generate_textures;
use fbo_bench::workload::sin_wave;
use fbo_bench::workload::sprite;
use fbo_bench::workload::sprite_batch;

#[test]
fn waves_hit_their_extremes() {
    assert_eq!(cos_wave(0), 1_000_000);
    assert_eq!(cos_wave(250_000), 0);
    assert_eq!(cos_wave(500_000), -1_000_000);
    assert_eq!(cos_wave(750_000), 0);
    assert_eq!(sin_wave(0), 0);
    assert_eq!(sin_wave(250_000), 1_000_000);
    assert_eq!(sin_wave(500_000), 0);
    assert_eq!(sin_wave(750_000), -1_000_000);
}

#[test]
fn textures_are_deterministic() {
    let a = generate_textures(4);
    let b = generate_textures(4);
    assert_eq!(a.len(), 4);
    assert_eq!(b.len(), 4);
    for t in 0..4 {
        assert_eq!(a[t].pixels.len(), 1024);
        for p in 0..1024 {
            assert_eq!(a[t].pixels[p], b[t].pixels[p]);
        }
    }
}

#[test]
fn texture_pixel_values_follow_the_formula() {
    let texs = generate_textures(4);
    // texture 0, pixel (0, 0): every ramp starts at zero.
    let px = texs[0].pixels[0];
    assert_eq!(px.r, 0);
    assert_eq!(px.g, 0);
    assert_eq!(px.b, 0);
    assert_eq!(px.a, 230);
    // texture 1, pixel (3, 2): r = ((3 + 7) % 32) * 255 / 31,
    // g = ((2 + 13) % 32) * 255 / 31, b = 1 * 255 / 4.
    let px = texs[1].pixels[2 * 32 + 3];
    assert_eq!(px.r, (10 * 255 / 31) as u8);
    assert_eq!(px.g, (15 * 255 / 31) as u8);
    assert_eq!(px.b, 63);
    assert_eq!(px.a, 230);
}

#[test]
fn sprites_are_deterministic() {
    for i in [0usize, 1, 7, 499] {
        let a = sprite(i, 1_234_567, 16, 320_000, 180_000);
        let b = sprite(i, 1_234_567, 16, 320_000, 180_000);
        assert_eq!(a, b);
    }
}

#[test]
fn texture_count_changes_assignment_only() {
    for i in [0usize, 1, 5, 16, 499] {
        let one = sprite(i, 2_000_000, 1, 320_000, 180_000);
        let many = sprite(i, 2_000_000, 5, 320_000, 180_000);
        assert_eq!(one.x_milli, many.x_milli);
        assert_eq!(one.y_milli, many.y_milli);
        assert_eq!(one.size_milli, many.size_milli);
        assert_eq!(one.opacity_milli, many.opacity_milli);
        assert_eq!(one.tex_index, 0);
        assert_eq!(many.tex_index, i % 5);
    }
}

#[test]
fn sprite_values_stay_in_their_ranges() {
    for i in 0..500usize {
        let s = sprite(i, 3_141_592, 16, 320_000, 180_000);
        // The radius never exceeds 8/10 of the smaller half extent.
        assert!(s.x_milli.abs() <= 180_000 * 8 / 10);
        assert!(s.y_milli.abs() <= 180_000 * 8 / 10);
        assert!(s.size_milli >= 4_000 && s.size_milli <= 12_000);
        assert!(s.opacity_milli >= 600 && s.opacity_milli <= 1_000);
        assert_eq!(s.tex_index, i % 16);
    }
}

#[test]
fn sprites_stay_in_range_at_the_extent_bound() {
    let reach = HALF_EXTENT_MAX * 8 / 10;
    for i in [0usize, 1, 999_999, 1_000_000] {
        let s = sprite(i, u64::MAX, 1, HALF_EXTENT_MAX, HALF_EXTENT_MAX);
        assert!(s.x_milli.abs() <= reach);
        assert!(s.y_milli.abs() <= reach);
        assert!(s.size_milli >= 4_000 && s.size_milli <= 12_000);
        assert!(s.opacity_milli >= 600 && s.opacity_milli <= 1_000);
        assert_eq!(s.tex_index, 0);
    }
}

#[test]
fn a_single_texture_run_still_generates_one() {
    let texs = generate_textures(1);
    assert_eq!(texs.len(), 1);
    let px = texs[0].pixels[0];
    assert_eq!(px.b, 0);
    assert_eq!(px.a, 230);
}

#[test]
fn sprite_batch_matches_per_index_calls() {
    let batch = sprite_batch(50, 777_000, 3, 320_000, 180_000);
    assert_eq!(batch.len(), 50);
    for i in 0..50 {
        assert_eq!(batch[i], sprite(i, 777_000, 3, 320_000, 180_000));
    }
}
