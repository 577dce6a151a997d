use solar_raster::color::Color;
use solar_raster::fixed::{FX_HALF, FX_ONE};
use solar_raster::fragment::Fragment;
use solar_raster::framebuffer::{Framebuffer, BACKGROUND_COLOR, DEPTH_FAR};
use solar_raster::geometry::{Fx2, Fx3, Mat4};
use solar_raster::render::{
    create_model_matrix, create_noise, create_viewport_matrix, render, render_background,
    Texture, Uniforms, NOISE_SEED,
};
use solar_raster::shaders::{fragment_shader, vertex_shader};
use solar_raster::triangle::triangle;
use solar_raster::vertex::Vertex;

fn identity_uniforms(time: u32) -> Uniforms {
    Uniforms {
        model_matrix: Mat4::identity(),
        view_matrix: Mat4::identity(),
        projection_matrix: Mat4::identity(),
        viewport_matrix: Mat4::identity(),
        time,
        noise: create_noise(),
    }
}

fn sample_fragment() -> Fragment {
    Fragment::new(
        5,
        7,
        FX_HALF,
        Fx3::new(0, 0, FX_ONE),
        Fx3::new(3 * FX_ONE, -2 * FX_ONE, FX_HALF),
        FX_ONE,
    )
}

#[test]
fn noise_is_seeded_deterministic_and_bounded() {
    let n = create_noise();
    assert_eq!(n.seed, NOISE_SEED);
    assert_eq!(NOISE_SEED, 1337);
    for k in -5i64..5 {
        let x = k * 40000;
        let y = k * 17 + 3;
        let a = n.get_noise_2d(x, y);
        assert_eq!(a, n.get_noise_2d(x, y));
        assert!(a >= -FX_ONE && a <= FX_ONE);
        let b = n.get_noise_3d(x, y, x ^ y);
        assert_eq!(b, n.get_noise_3d(x, y, x ^ y));
        assert!(b >= -FX_ONE && b <= FX_ONE);
    }
}

#[test]
fn every_material_is_deterministic() {
    let f = sample_fragment();
    let u = identity_uniforms(42);
    for sel in 0u8..10 {
        let c1 = fragment_shader(&f, &u, sel);
        let c2 = fragment_shader(&f, &u, sel);
        assert_eq!(c1, c2);
    }
}

#[test]
fn out_of_range_selector_falls_back_to_default_material() {
    let f = sample_fragment();
    let u = identity_uniforms(42);
    let fallback = fragment_shader(&f, &u, 11);
    let default_material = fragment_shader(&f, &u, 5);
    assert_eq!(fallback, default_material);
    assert_eq!(fragment_shader(&f, &u, 200), default_material);
}

#[test]
fn banded_materials_hit_exact_palette_entries() {
    let f = Fragment::new(0, 0, FX_HALF, Fx3::new(0, 0, FX_ONE), Fx3::new(0, 0, 0), FX_ONE);
    let u = identity_uniforms(0);
    // At phase zero the wave is zero, landing in the fourth band.
    assert_eq!(fragment_shader(&f, &u, 2), Color::new(153, 76, 0));
    assert_eq!(fragment_shader(&f, &u, 0), Color::new(255, 255, 0));
}

#[test]
fn vertex_shader_with_identity_chain_keeps_coordinates() {
    let u = identity_uniforms(0);
    let v = Vertex::new(
        Fx3::new(10 * FX_ONE, -4 * FX_ONE, FX_HALF),
        Fx3::new(0, FX_ONE, 0),
        Fx2::new(0, 0),
        Color::new(1, 2, 3),
    );
    let t = vertex_shader(&v, &u);
    assert_eq!(t.transformed_position, v.position);
    assert_eq!(t.transformed_normal, v.normal);
    assert_eq!(t.position, v.position);
}

#[test]
fn model_matrix_without_rotation_is_scale_and_translate() {
    let m = create_model_matrix(
        Fx3::new(FX_ONE, 2 * FX_ONE, 3 * FX_ONE),
        FX_ONE,
        Fx3::new(0, 0, 0),
    );
    assert_eq!(m.m00, FX_ONE);
    assert_eq!(m.m11, FX_ONE);
    assert_eq!(m.m22, FX_ONE);
    assert_eq!(m.m33, FX_ONE);
    assert_eq!(m.m03, FX_ONE);
    assert_eq!(m.m13, 2 * FX_ONE);
    assert_eq!(m.m23, 3 * FX_ONE);
    assert_eq!(m.m01, 0);
    assert_eq!(m.m10, 0);
}

#[test]
fn viewport_matrix_halves_and_flips() {
    let m = create_viewport_matrix(40 * FX_ONE, 30 * FX_ONE);
    assert_eq!(m.m00, 20 * FX_ONE);
    assert_eq!(m.m03, 20 * FX_ONE);
    assert_eq!(m.m11, -15 * FX_ONE);
    assert_eq!(m.m13, 15 * FX_ONE);
    assert_eq!(m.m22, FX_ONE);
    assert_eq!(m.m33, FX_ONE);
}

fn unit_triangle() -> Vec<Vertex> {
    let n = Fx3::new(0, 0, FX_ONE);
    let t = Fx2::new(0, 0);
    let c = Color::new(9, 9, 9);
    vec![
        Vertex::new(Fx3::new(10 * FX_ONE, 10 * FX_ONE, FX_HALF), n, t, c),
        Vertex::new(Fx3::new(20 * FX_ONE, 10 * FX_ONE, FX_HALF), n, t, c),
        Vertex::new(Fx3::new(10 * FX_ONE, 20 * FX_ONE, FX_HALF), n, t, c),
    ]
}

#[test]
fn rasterizer_covers_exact_footprint() {
    let vs = unit_triangle();
    let u = identity_uniforms(0);
    let t0 = vertex_shader(&vs[0], &u);
    let t1 = vertex_shader(&vs[1], &u);
    let t2 = vertex_shader(&vs[2], &u);
    let frags = triangle(&t0, &t1, &t2);
    let mut seen = vec![false; 40 * 40];
    for f in &frags {
        assert!(f.x >= 10 && f.y >= 10 && f.x + f.y <= 30);
        assert_eq!(f.depth, FX_HALF);
        assert_eq!(f.intensity, 21845);
        seen[f.y * 40 + f.x] = true;
    }
    for y in 0..40usize {
        for x in 0..40usize {
            let inside = x >= 10 && y >= 10 && x + y <= 30;
            assert_eq!(seen[y * 40 + x], inside);
        }
    }
}

#[test]
fn render_unit_triangle_writes_footprint_and_nothing_else() {
    let mut fb = Framebuffer::new(40, 40);
    let u = identity_uniforms(0);
    let vs = unit_triangle();
    render(&mut fb, &u, &vs, 2);
    let expected = Color::new(153, 76, 0).scale(21845).to_hex();
    for y in 0..40usize {
        for x in 0..40usize {
            let idx = y * 40 + x;
            let inside = x >= 10 && y >= 10 && x + y <= 30;
            if inside {
                assert_eq!(fb.buffer[idx], expected);
                assert_eq!(fb.zbuffer[idx], FX_HALF);
            } else {
                assert_eq!(fb.buffer[idx], BACKGROUND_COLOR);
                assert_eq!(fb.zbuffer[idx], DEPTH_FAR);
            }
        }
    }
}

#[test]
fn fully_offscreen_triangle_renders_nothing() {
    let mut fb = Framebuffer::new(40, 40);
    let u = identity_uniforms(3);
    let n = Fx3::new(0, 0, FX_ONE);
    let t = Fx2::new(0, 0);
    let c = Color::new(9, 9, 9);
    let vs = vec![
        Vertex::new(Fx3::new(1000 * FX_ONE, 1000 * FX_ONE, FX_HALF), n, t, c),
        Vertex::new(Fx3::new(1010 * FX_ONE, 1000 * FX_ONE, FX_HALF), n, t, c),
        Vertex::new(Fx3::new(1000 * FX_ONE, 1010 * FX_ONE, FX_HALF), n, t, c),
    ];
    render(&mut fb, &u, &vs, 7);
    for i in 0..1600 {
        assert_eq!(fb.buffer[i], BACKGROUND_COLOR);
        assert_eq!(fb.zbuffer[i], DEPTH_FAR);
    }
    // A triangle entirely at negative coordinates also writes nothing.
    let vs2 = vec![
        Vertex::new(Fx3::new(-30 * FX_ONE, -30 * FX_ONE, FX_HALF), n, t, c),
        Vertex::new(Fx3::new(-20 * FX_ONE, -30 * FX_ONE, FX_HALF), n, t, c),
        Vertex::new(Fx3::new(-30 * FX_ONE, -20 * FX_ONE, FX_HALF), n, t, c),
    ];
    render(&mut fb, &u, &vs2, 7);
    for i in 0..1600 {
        assert_eq!(fb.buffer[i], BACKGROUND_COLOR);
    }
}

#[test]
fn trailing_partial_triple_is_discarded() {
    let mut fb = Framebuffer::new(40, 40);
    let u = identity_uniforms(0);
    let mut vs = unit_triangle();
    vs.push(vs[0]);
    vs.push(vs[1]);
    let mut fb2 = Framebuffer::new(40, 40);
    render(&mut fb, &u, &vs, 2);
    render(&mut fb2, &u, &unit_triangle(), 2);
    assert_eq!(fb.buffer, fb2.buffer);
}

#[test]
fn degenerate_triangle_produces_no_fragments() {
    let n = Fx3::new(0, 0, FX_ONE);
    let t = Fx2::new(0, 0);
    let c = Color::new(9, 9, 9);
    let v = Vertex::new(Fx3::new(5 * FX_ONE, 5 * FX_ONE, FX_HALF), n, t, c);
    let frags = triangle(&v, &v, &v);
    assert_eq!(frags.len(), 0);
}

#[test]
fn background_blit_scales_texture_and_sets_far_depth() {
    let mut fb = Framebuffer::new(4, 4);
    let tex = Texture::new(2, 2, vec![0x111111, 0x222222, 0x333333, 0x444444]);
    render_background(&mut fb, &tex);
    for y in 0..4usize {
        for x in 0..4usize {
            let ti = (y * 2 / 4) * 2 + x * 2 / 4;
            assert_eq!(fb.buffer[y * 4 + x], tex.pixels[ti]);
            assert_eq!(fb.zbuffer[y * 4 + x], FX_ONE);
        }
    }
    // A nearer existing depth is not overwritten by the background.
    let mut fb2 = Framebuffer::new(4, 4);
    fb2.set_current_color(0xABCDEF);
    fb2.point(1, 1, 0);
    render_background(&mut fb2, &tex);
    assert_eq!(fb2.buffer[1 * 4 + 1], 0xABCDEF);
    assert_eq!(fb2.zbuffer[1 * 4 + 1], 0);
}

#[test]
fn overlapping_renders_commute_over_draw_order() {
    let n = Fx3::new(0, 0, FX_ONE);
    let t = Fx2::new(0, 0);
    let c = Color::new(9, 9, 9);
    let near = vec![
        Vertex::new(Fx3::new(10 * FX_ONE, 10 * FX_ONE, FX_ONE / 4), n, t, c),
        Vertex::new(Fx3::new(25 * FX_ONE, 10 * FX_ONE, FX_ONE / 4), n, t, c),
        Vertex::new(Fx3::new(10 * FX_ONE, 25 * FX_ONE, FX_ONE / 4), n, t, c),
    ];
    let far = vec![
        Vertex::new(Fx3::new(5 * FX_ONE, 5 * FX_ONE, 3 * FX_ONE / 4), n, t, c),
        Vertex::new(Fx3::new(20 * FX_ONE, 5 * FX_ONE, 3 * FX_ONE / 4), n, t, c),
        Vertex::new(Fx3::new(5 * FX_ONE, 20 * FX_ONE, 3 * FX_ONE / 4), n, t, c),
    ];
    let u = identity_uniforms(0);
    let mut fb1 = Framebuffer::new(40, 40);
    render(&mut fb1, &u, &near, 2);
    render(&mut fb1, &u, &far, 0);
    let mut fb2 = Framebuffer::new(40, 40);
    render(&mut fb2, &u, &far, 0);
    render(&mut fb2, &u, &near, 2);
    assert_eq!(fb1.buffer, fb2.buffer);
    assert_eq!(fb1.zbuffer, fb2.zbuffer);
    // The overlap keeps the nearer triangle's depth.
    assert_eq!(fb1.zbuffer[12 * 40 + 12], FX_ONE / 4);
}
