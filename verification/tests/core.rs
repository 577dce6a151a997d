use solar_raster::color::Color;
use solar_raster::fixed::{fx_add, fx_cowave, fx_div, fx_mul, fx_wave, FX_HALF, FX_ONE};
use solar_raster::framebuffer::{Framebuffer, BACKGROUND_COLOR, DEPTH_FAR};
use solar_raster::geometry::{isqrt_i128, normalize, Fx3};

#[test]
fn wave_is_periodic_and_hits_extremes() {
    assert_eq!(fx_wave(0), 0);
    assert_eq!(fx_wave(FX_ONE / 4), FX_ONE);
    assert_eq!(fx_wave(3 * FX_ONE / 4), -FX_ONE);
    for &x in &[0i64, 5, 12345, -99999, 7 * FX_ONE + 3] {
        assert_eq!(fx_wave(x), fx_wave(x + FX_ONE));
        assert!(fx_wave(x) >= -FX_ONE && fx_wave(x) <= FX_ONE);
    }
    assert_eq!(fx_cowave(0), FX_ONE);
    assert_eq!(fx_cowave(FX_ONE / 2), -FX_ONE);
}

#[test]
fn fixed_arithmetic_exact_values() {
    assert_eq!(fx_mul(2 * FX_ONE, FX_HALF), FX_ONE);
    assert_eq!(fx_mul(-3 * FX_ONE, 2 * FX_ONE), -6 * FX_ONE);
    assert_eq!(fx_div(FX_ONE, 2 * FX_ONE), FX_HALF);
    assert_eq!(fx_div(FX_ONE, 0), i64::MAX);
    assert_eq!(fx_div(-FX_ONE, 0), i64::MIN);
    assert_eq!(fx_add(i64::MAX, 1), i64::MAX);
    assert_eq!(fx_add(i64::MIN, -1), i64::MIN);
}

#[test]
fn isqrt_exact() {
    assert_eq!(isqrt_i128(0), 0);
    assert_eq!(isqrt_i128(15), 3);
    assert_eq!(isqrt_i128(16), 4);
    assert_eq!(isqrt_i128(1 << 40), 1 << 20);
}

#[test]
fn normalize_scales_to_unit_length() {
    let v = Fx3::new(3 * FX_ONE, 4 * FX_ONE, 0);
    let n = normalize(&v);
    assert_eq!(n, Fx3::new(39321, 52428, 0));
    let z = Fx3::new(0, 0, 0);
    assert_eq!(normalize(&z), Fx3::new(0, 0, 0));
}

#[test]
fn lerp_endpoints_are_exact() {
    let pairs = [
        (Color::new(255, 0, 255), Color::new(0, 255, 255)),
        (Color::new(1, 2, 3), Color::new(200, 100, 50)),
        (Color::new(0, 0, 0), Color::new(255, 255, 255)),
    ];
    for &(a, b) in &pairs {
        assert_eq!(a.lerp(&b, 0), a);
        assert_eq!(a.lerp(&b, FX_ONE), b);
    }
}

#[test]
fn color_scale_and_hex_exact() {
    assert_eq!(Color::new(255, 255, 255).to_hex(), 0xFFFFFF);
    assert_eq!(Color::new(1, 2, 3).to_hex(), 0x010203);
    assert_eq!(Color::new(255, 255, 255).scale(FX_HALF), Color::new(127, 127, 127));
    assert_eq!(Color::new(100, 200, 50).scale(FX_ONE), Color::new(100, 200, 50));
    assert_eq!(Color::new(100, 200, 50).scale(-FX_ONE), Color::new(0, 0, 0));
    assert_eq!(Color::new(100, 200, 50).scale(3 * FX_ONE), Color::new(255, 255, 150));
}

#[test]
fn clear_resets_every_pixel_and_depth() {
    let mut fb = Framebuffer::new(4, 3);
    fb.set_current_color(0xABCDEF);
    fb.point(1, 1, 100);
    fb.point(3, 2, 50);
    fb.clear();
    for i in 0..12 {
        assert_eq!(fb.buffer[i], BACKGROUND_COLOR);
        assert_eq!(fb.zbuffer[i], DEPTH_FAR);
    }
}

#[test]
fn depth_test_is_order_independent() {
    let mut fb1 = Framebuffer::new(4, 3);
    fb1.set_current_color(0x111111);
    fb1.point(2, 1, 1000);
    fb1.set_current_color(0x222222);
    fb1.point(2, 1, 500);

    let mut fb2 = Framebuffer::new(4, 3);
    fb2.set_current_color(0x222222);
    fb2.point(2, 1, 500);
    fb2.set_current_color(0x111111);
    fb2.point(2, 1, 1000);

    let idx = 1 * 4 + 2;
    assert_eq!(fb1.buffer[idx], 0x222222);
    assert_eq!(fb2.buffer[idx], 0x222222);
    assert_eq!(fb1.zbuffer[idx], 500);
    assert_eq!(fb2.zbuffer[idx], 500);
}

#[test]
fn occluded_and_out_of_bounds_writes_are_no_ops() {
    let mut fb = Framebuffer::new(4, 3);
    fb.set_current_color(0x00FF00);
    fb.point(1, 2, 10);
    fb.set_current_color(0xFF0000);
    fb.point(1, 2, 10);
    let idx = 2 * 4 + 1;
    assert_eq!(fb.buffer[idx], 0x00FF00);
    fb.point(4, 0, -100);
    fb.point(0, 3, -100);
    fb.point(100, 100, -100);
    for i in 0..12 {
        if i != idx {
            assert_eq!(fb.buffer[i], BACKGROUND_COLOR);
            assert_eq!(fb.zbuffer[i], DEPTH_FAR);
        }
    }
}
