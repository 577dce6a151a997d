//! The shading stage: the vertex shader and the ten procedural materials
//! behind the fragment-shader dispatch.
//!
//! Every material is a pure function of the fragment, the frame's uniforms
//! and the noise seed: its contract pins the returned color to a
//! specification function of those inputs alone, so identical inputs always
//! shade identically.  Phases are fixed-point turns fed to the periodic wave;
//! thresholds and blend factors are fixed-point fractions of `FX_ONE`.

use vstd::prelude::*;
use crate::color::{lerp_s, scale_s, Color};
use crate::fixed::{
    fx_abs, fx_abs_s, fx_add, fx_add_s, fx_clamp01, fx_clamp01_s, fx_div, fx_div_s, fx_mul,
    fx_mul_s, fx_sub, fx_sub_s, fx_wave, wave_s, FX_HALF, FX_ONE,
};
use crate::fragment::Fragment;
use crate::geometry::{
    dot3, dot3_s, inv_transpose3, inv_transpose3_s, mat3_vec, mat3_vec_s, mat4_to_mat3,
    mat4_to_mat3_s, mat_mul, mat_mul_s, mat_vec4, mat_vec4_s, Fx3, Fx4,
};
use crate::noise::{noise2_s, noise3_s};
use crate::render::Uniforms;
use crate::vertex::Vertex;

verus! {

/// Non-negative part of a fixed-point scalar.
pub open spec fn max0_s(x: int) -> int {
    if x < 0 {
        0
    } else {
        x
    }
}

/// The transformed vertex: the screen-space position after the full
/// model-view-projection chain, perspective division and viewport mapping,
/// and the normal carried through the inverse transpose of the model's
/// upper 3x3 (the identity when that matrix is singular).
#[verifier::opaque]
pub open spec fn vertex_shader_s(vertex: Vertex, uniforms: Uniforms) -> Vertex {
    let position = Fx4 {
        x: vertex.position.x,
        y: vertex.position.y,
        z: vertex.position.z,
        w: FX_ONE,
    };
    let pvm = mat_mul_s(
        mat_mul_s(uniforms.projection_matrix, uniforms.view_matrix),
        uniforms.model_matrix,
    );
    let transformed = mat_vec4_s(pvm, position);
    let ndc = Fx4 {
        x: fx_div_s(transformed.x as int, transformed.w as int) as i64,
        y: fx_div_s(transformed.y as int, transformed.w as int) as i64,
        z: fx_div_s(transformed.z as int, transformed.w as int) as i64,
        w: FX_ONE,
    };
    let screen = mat_vec4_s(uniforms.viewport_matrix, ndc);
    let normal_matrix = inv_transpose3_s(mat4_to_mat3_s(uniforms.model_matrix));
    Vertex {
        position: vertex.position,
        normal: vertex.normal,
        tex_coords: vertex.tex_coords,
        color: vertex.color,
        transformed_position: Fx3 { x: screen.x, y: screen.y, z: screen.z },
        transformed_normal: mat3_vec_s(normal_matrix, vertex.normal),
    }
}

/// Transform one vertex through the full camera chain.
pub fn vertex_shader(vertex: &Vertex, uniforms: &Uniforms) -> (r: Vertex)
    ensures
        r == vertex_shader_s(*vertex, *uniforms),
{
    proof {
        reveal(vertex_shader_s);
    }
    let position = Fx4 {
        x: vertex.position.x,
        y: vertex.position.y,
        z: vertex.position.z,
        w: FX_ONE,
    };
    let pvm = mat_mul(
        &mat_mul(&uniforms.projection_matrix, &uniforms.view_matrix),
        &uniforms.model_matrix,
    );
    let transformed = mat_vec4(&pvm, &position);
    let w: i64 = transformed.w;
    let ndc = Fx4 {
        x: fx_div(transformed.x, w),
        y: fx_div(transformed.y, w),
        z: fx_div(transformed.z, w),
        w: FX_ONE,
    };
    let screen = mat_vec4(&uniforms.viewport_matrix, &ndc);
    let model_mat3 = mat4_to_mat3(&uniforms.model_matrix);
    let normal_matrix = inv_transpose3(&model_mat3);
    let transformed_normal = mat3_vec(&normal_matrix, &vertex.normal);
    Vertex {
        position: vertex.position,
        normal: vertex.normal,
        tex_coords: vertex.tex_coords,
        color: vertex.color,
        transformed_position: Fx3 { x: screen.x, y: screen.y, z: screen.z },
        transformed_normal,
    }
}

/// Swirling five-band planet: a wave over position and time picks the band,
/// noise blends each band toward the next palette color.
pub open spec fn planeta_raro_s(f: Fragment, u: Uniforms) -> Color {
    let c1 = Color { r: 255, g: 0, b: 255 };
    let c2 = Color { r: 0, g: 255, b: 255 };
    let c3 = Color { r: 0, g: 255, b: 127 };
    let c4 = Color { r: 255, g: 105, b: 180 };
    let c5 = Color { r: 255, g: 165, b: 0 };
    let p = f.vertex_position;
    let tf = (u.time as int) * 2621;
    let swirl = wave_s(
        fx_add_s(fx_add_s(fx_mul_s(p.x as int, 655360), fx_mul_s(p.y as int, 655360)), tf),
    );
    let nv = fx_abs_s(
        noise3_s(
            u.noise.seed,
            fx_mul_s(p.x as int, 458752),
            fx_mul_s(p.y as int, 458752),
            fx_add_s(fx_mul_s(p.z as int, 458752), tf),
        ),
    );
    let wv = wave_s(fx_add_s(fx_mul_s(p.y as int, 786432), fx_mul_s(swirl, 327680)));
    let base = if wv < -39322 {
        lerp_s(c1, c2, nv)
    } else if wv < -13107 {
        lerp_s(c2, c3, nv)
    } else if wv < 13107 {
        lerp_s(c3, c4, nv)
    } else if wv < 39322 {
        lerp_s(c4, c5, nv)
    } else {
        lerp_s(c5, c1, nv)
    };
    scale_s(base, f.intensity as int)
}

pub fn planeta_raro(fragment: &Fragment, uniforms: &Uniforms) -> (c: Color)
    ensures
        c == planeta_raro_s(*fragment, *uniforms),
{
    let color_1 = Color::new(255, 0, 255);
    let color_2 = Color::new(0, 255, 255);
    let color_3 = Color::new(0, 255, 127);
    let color_4 = Color::new(255, 105, 180);
    let color_5 = Color::new(255, 165, 0);
    let position = fragment.vertex_position;
    let tf: i64 = (uniforms.time as i64) * 2621;
    let swirl: i64 = fx_wave(
        fx_add(fx_add(fx_mul(position.x, 655360), fx_mul(position.y, 655360)), tf),
    );
    let noise_value: i64 = fx_abs(
        uniforms.noise.get_noise_3d(
            fx_mul(position.x, 458752),
            fx_mul(position.y, 458752),
            fx_add(fx_mul(position.z, 458752), tf),
        ),
    );
    let wave_value: i64 = fx_wave(
        fx_add(fx_mul(position.y, 786432), fx_mul(swirl, 327680)),
    );
    let base_color = if wave_value < -39322 {
        color_1.lerp(&color_2, noise_value)
    } else if wave_value < -13107 {
        color_2.lerp(&color_3, noise_value)
    } else if wave_value < 13107 {
        color_3.lerp(&color_4, noise_value)
    } else if wave_value < 39322 {
        color_4.lerp(&color_5, noise_value)
    } else {
        color_5.lerp(&color_1, noise_value)
    };
    base_color.scale(fragment.intensity)
}

/// Ringed planet: latitude bands from a slowly pulsating wave over y.
pub open spec fn planeta_saturno_s(f: Fragment, u: Uniforms) -> Color {
    let c1 = Color { r: 255, g: 204, b: 102 };
    let c2 = Color { r: 255, g: 153, b: 51 };
    let c3 = Color { r: 204, g: 102, b: 0 };
    let c4 = Color { r: 153, g: 76, b: 0 };
    let c5 = Color { r: 102, g: 51, b: 0 };
    let p = f.vertex_position;
    let tf = (u.time as int) * 1311;
    let pulsate = fx_mul_s(wave_s(fx_mul_s(tf, FX_HALF as int)), FX_HALF as int);
    let bands = wave_s(fx_add_s(fx_mul_s(p.y as int, 655360), pulsate));
    let base = if bands < -52429 {
        c1
    } else if bands < -26214 {
        c2
    } else if bands < 0 {
        c3
    } else if bands < 26214 {
        c4
    } else {
        c5
    };
    scale_s(base, f.intensity as int)
}

pub fn planeta_saturno(fragment: &Fragment, uniforms: &Uniforms) -> (c: Color)
    ensures
        c == planeta_saturno_s(*fragment, *uniforms),
{
    let color_1 = Color::new(255, 204, 102);
    let color_2 = Color::new(255, 153, 51);
    let color_3 = Color::new(204, 102, 0);
    let color_4 = Color::new(153, 76, 0);
    let color_5 = Color::new(102, 51, 0);
    let position = fragment.vertex_position;
    let tf: i64 = (uniforms.time as i64) * 1311;
    let pulsate: i64 = fx_mul(fx_wave(fx_mul(tf, FX_HALF)), FX_HALF);
    let bands_value: i64 = fx_wave(fx_add(fx_mul(position.y, 655360), pulsate));
    let base_color = if bands_value < -52429 {
        color_1
    } else if bands_value < -26214 {
        color_2
    } else if bands_value < 0 {
        color_3
    } else if bands_value < 26214 {
        color_4
    } else {
        color_5
    };
    base_color.scale(fragment.intensity)
}

/// Watery banded planet: eight latitude bands over a denser wave.
pub open spec fn planeta_azul_s(f: Fragment, u: Uniforms) -> Color {
    let c1 = Color { r: 173, g: 216, b: 230 };
    let c2 = Color { r: 135, g: 206, b: 250 };
    let c3 = Color { r: 0, g: 191, b: 255 };
    let c4 = Color { r: 64, g: 224, b: 208 };
    let c5 = Color { r: 0, g: 206, b: 209 };
    let c6 = Color { r: 70, g: 130, b: 180 };
    let c7 = Color { r: 0, g: 105, b: 148 };
    let c8 = Color { r: 25, g: 25, b: 112 };
    let p = f.vertex_position;
    let tf = (u.time as int) * 1311;
    let pulsate = fx_mul_s(wave_s(fx_mul_s(tf, FX_HALF as int)), FX_HALF as int);
    let bands = wave_s(fx_add_s(fx_mul_s(p.y as int, 983040), pulsate));
    let base = if bands < -52429 {
        c1
    } else if bands < -39322 {
        c2
    } else if bands < -26214 {
        c3
    } else if bands < -13107 {
        c4
    } else if bands < 0 {
        c5
    } else if bands < 13107 {
        c6
    } else if bands < 26214 {
        c7
    } else {
        c8
    };
    scale_s(base, f.intensity as int)
}

pub fn planeta_azul(fragment: &Fragment, uniforms: &Uniforms) -> (c: Color)
    ensures
        c == planeta_azul_s(*fragment, *uniforms),
{
    let color_1 = Color::new(173, 216, 230);
    let color_2 = Color::new(135, 206, 250);
    let color_3 = Color::new(0, 191, 255);
    let color_4 = Color::new(64, 224, 208);
    let color_5 = Color::new(0, 206, 209);
    let color_6 = Color::new(70, 130, 180);
    let color_7 = Color::new(0, 105, 148);
    let color_8 = Color::new(25, 25, 112);
    let position = fragment.vertex_position;
    let tf: i64 = (uniforms.time as i64) * 1311;
    let pulsate: i64 = fx_mul(fx_wave(fx_mul(tf, FX_HALF)), FX_HALF);
    let bands_value: i64 = fx_wave(fx_add(fx_mul(position.y, 983040), pulsate));
    let base_color = if bands_value < -52429 {
        color_1
    } else if bands_value < -39322 {
        color_2
    } else if bands_value < -26214 {
        color_3
    } else if bands_value < -13107 {
        color_4
    } else if bands_value < 0 {
        color_5
    } else if bands_value < 13107 {
        color_6
    } else if bands_value < 26214 {
        color_7
    } else {
        color_8
    };
    base_color.scale(fragment.intensity)
}

/// Cellular planet: dense 2D noise thresholds pick among four greens.
pub open spec fn planeta_celular_s(f: Fragment, u: Uniforms) -> Color {
    let c1 = Color { r: 85, g: 107, b: 47 };
    let c2 = Color { r: 124, g: 252, b: 0 };
    let c3 = Color { r: 34, g: 139, b: 34 };
    let c4 = Color { r: 173, g: 255, b: 47 };
    let p = f.vertex_position;
    let tf = (u.time as int) * 1966;
    let pulsate = fx_mul_s(wave_s(fx_mul_s(tf, FX_HALF as int)), 13107);
    let nv = fx_abs_s(
        noise2_s(
            u.noise.seed,
            fx_mul_s(fx_add_s(p.x as int, pulsate), 39321600),
            fx_add_s(fx_mul_s(p.z as int, 39321600), tf),
        ),
    );
    let ring = if nv < 6554 {
        c1
    } else if nv < 19661 {
        c2
    } else if nv < 32768 {
        c3
    } else {
        c4
    };
    scale_s(ring, f.intensity as int)
}

pub fn planeta_celular(fragment: &Fragment, uniforms: &Uniforms) -> (c: Color)
    ensures
        c == planeta_celular_s(*fragment, *uniforms),
{
    let ring_color_1 = Color::new(85, 107, 47);
    let ring_color_2 = Color::new(124, 252, 0);
    let ring_color_3 = Color::new(34, 139, 34);
    let ring_color_4 = Color::new(173, 255, 47);
    let position = fragment.vertex_position;
    let tf: i64 = (uniforms.time as i64) * 1966;
    let pulsate: i64 = fx_mul(fx_wave(fx_mul(tf, FX_HALF)), 13107);
    let noise_value: i64 = fx_abs(
        uniforms.noise.get_noise_2d(
            fx_mul(fx_add(position.x, pulsate), 39321600),
            fx_add(fx_mul(position.z, 39321600), tf),
        ),
    );
    let ring_color = if noise_value < 6554 {
        ring_color_1
    } else if noise_value < 19661 {
        ring_color_2
    } else if noise_value < 32768 {
        ring_color_3
    } else {
        ring_color_4
    };
    ring_color.scale(fragment.intensity)
}

/// Spotted rocky planet, the dispatch's default: spot and dot noise layers
/// over a noise-blended rock base.
pub open spec fn planeta_mancha_s(f: Fragment, u: Uniforms) -> Color {
    let spot = Color { r: 139, g: 69, b: 19 };
    let rock = Color { r: 210, g: 105, b: 30 };
    let highlight = Color { r: 255, g: 140, b: 0 };
    let dots = Color { r: 255, g: 222, b: 173 };
    let p = f.vertex_position;
    let tf = (u.time as int) * 1966;
    let pulsate = fx_add_s(fx_mul_s(wave_s(fx_mul_s(tf, 39322)), FX_HALF as int), FX_HALF as int);
    let rock_nv = fx_abs_s(
        noise3_s(
            u.noise.seed,
            fx_mul_s(p.x as int, 983040),
            fx_mul_s(p.y as int, 983040),
            fx_mul_s(p.z as int, 983040),
        ),
    );
    let spot_nv = fx_abs_s(
        noise2_s(u.noise.seed, fx_mul_s(p.x as int, 983040), fx_mul_s(p.y as int, 983040)),
    );
    let spot_threshold = fx_mul_s(13107, pulsate);
    let dots_nv = fx_abs_s(
        noise2_s(u.noise.seed, fx_mul_s(p.x as int, 3276800), fx_mul_s(p.y as int, 3276800)),
    );
    let base = if spot_nv < spot_threshold {
        lerp_s(spot, rock, rock_nv)
    } else {
        lerp_s(rock, highlight, rock_nv)
    };
    let final_color = if dots_nv < 3277 {
        dots
    } else {
        base
    };
    scale_s(final_color, f.intensity as int)
}

pub fn planeta_mancha(fragment: &Fragment, uniforms: &Uniforms) -> (c: Color)
    ensures
        c == planeta_mancha_s(*fragment, *uniforms),
{
    let spot_color = Color::new(139, 69, 19);
    let rock_base_color = Color::new(210, 105, 30);
    let highlight_color = Color::new(255, 140, 0);
    let dot_color = Color::new(255, 222, 173);
    let position = fragment.vertex_position;
    let tf: i64 = (uniforms.time as i64) * 1966;
    let pulsate: i64 = fx_add(fx_mul(fx_wave(fx_mul(tf, 39322)), FX_HALF), FX_HALF);
    let rock_noise_value: i64 = fx_abs(
        uniforms.noise.get_noise_3d(
            fx_mul(position.x, 983040),
            fx_mul(position.y, 983040),
            fx_mul(position.z, 983040),
        ),
    );
    let spot_noise_value: i64 = fx_abs(
        uniforms.noise.get_noise_2d(fx_mul(position.x, 983040), fx_mul(position.y, 983040)),
    );
    let spot_threshold: i64 = fx_mul(13107, pulsate);
    let dots_noise_value: i64 = fx_abs(
        uniforms.noise.get_noise_2d(fx_mul(position.x, 3276800), fx_mul(position.y, 3276800)),
    );
    let base_color = if spot_noise_value < spot_threshold {
        spot_color.lerp(&rock_base_color, rock_noise_value)
    } else {
        rock_base_color.lerp(&highlight_color, rock_noise_value)
    };
    let final_color = if dots_noise_value < 3277 {
        dot_color
    } else {
        base_color
    };
    final_color.scale(fragment.intensity)
}

/// The star: two offset noise samples blended through three hot color stops.
pub open spec fn sol_s(f: Fragment, u: Uniforms) -> Color {
    let core = Color { r: 255, g: 255, b: 200 };
    let mid = Color { r: 255, g: 223, b: 0 };
    let corona = Color { r: 255, g: 140, b: 0 };
    let p = Fx3 { x: f.vertex_position.x, y: f.vertex_position.y, z: f.depth };
    let tf = (u.time as int) * 1311;
    let pulsate = fx_mul_s(wave_s(fx_mul_s(tf, FX_HALF as int)), 39322);
    let nv1 = noise3_s(
        u.noise.seed,
        fx_mul_s(p.x as int, 65536000),
        fx_mul_s(p.y as int, 65536000),
        fx_mul_s(fx_add_s(p.z as int, pulsate), 65536000),
    );
    let nv2 = noise3_s(
        u.noise.seed,
        fx_mul_s(fx_add_s(p.x as int, 65536000), 65536000),
        fx_mul_s(fx_add_s(p.y as int, 65536000), 65536000),
        fx_mul_s(fx_add_s(fx_add_s(p.z as int, 65536000), pulsate), 65536000),
    );
    let nv = fx_mul_s(fx_add_s(nv1, nv2), FX_HALF as int);
    let blended = lerp_s(
        lerp_s(core, mid, fx_abs_s(nv)),
        corona,
        fx_clamp01_s(fx_add_s(fx_mul_s(nv, FX_HALF as int), FX_HALF as int)),
    );
    scale_s(blended, f.intensity as int)
}

pub fn sol(fragment: &Fragment, uniforms: &Uniforms) -> (c: Color)
    ensures
        c == sol_s(*fragment, *uniforms),
{
    let core_color = Color::new(255, 255, 200);
    let mid_color = Color::new(255, 223, 0);
    let corona_color = Color::new(255, 140, 0);
    let position = Fx3 {
        x: fragment.vertex_position.x,
        y: fragment.vertex_position.y,
        z: fragment.depth,
    };
    let tf: i64 = (uniforms.time as i64) * 1311;
    let pulsate: i64 = fx_mul(fx_wave(fx_mul(tf, FX_HALF)), 39322);
    let noise_value1: i64 = uniforms.noise.get_noise_3d(
        fx_mul(position.x, 65536000),
        fx_mul(position.y, 65536000),
        fx_mul(fx_add(position.z, pulsate), 65536000),
    );
    let noise_value2: i64 = uniforms.noise.get_noise_3d(
        fx_mul(fx_add(position.x, 65536000), 65536000),
        fx_mul(fx_add(position.y, 65536000), 65536000),
        fx_mul(fx_add(fx_add(position.z, 65536000), pulsate), 65536000),
    );
    let noise_value: i64 = fx_mul(fx_add(noise_value1, noise_value2), FX_HALF);
    let blended_color = core_color.lerp(&mid_color, fx_abs(noise_value)).lerp(
        &corona_color,
        fx_clamp01(fx_add(fx_mul(noise_value, FX_HALF), FX_HALF)),
    );
    blended_color.scale(fragment.intensity)
}

/// The fixed light direction shared by the lighting computations.
pub open spec fn light_dir_s() -> Fx3 {
    Fx3 { x: 43690, y: 43690, z: 21845 }
}

/// Rocky planet: seven stone bands from averaged noise, darkened by its own
/// diffuse term (ambient 0.6 plus 0.4 of the normal's response).
pub open spec fn planeta_rocoso_s(f: Fragment, u: Uniforms) -> Color {
    let c1 = Color { r: 245, g: 222, b: 179 };
    let c2 = Color { r: 222, g: 184, b: 135 };
    let c3 = Color { r: 210, g: 180, b: 140 };
    let c4 = Color { r: 188, g: 143, b: 143 };
    let c5 = Color { r: 205, g: 133, b: 63 };
    let c6 = Color { r: 139, g: 69, b: 19 };
    let c7 = Color { r: 160, g: 82, b: 45 };
    let p = Fx3 { x: f.vertex_position.x, y: f.vertex_position.y, z: f.depth };
    let tf = (u.time as int) * 655;
    let pulsate = fx_mul_s(wave_s(fx_mul_s(tf, FX_HALF as int)), 6554);
    let nv1 = noise3_s(
        u.noise.seed,
        fx_mul_s(fx_add_s(p.x as int, pulsate), 65536000),
        fx_mul_s(fx_add_s(p.y as int, pulsate), 65536000),
        fx_add_s(fx_mul_s(p.z as int, 65536000), tf),
    );
    let nv2 = noise3_s(
        u.noise.seed,
        fx_mul_s(fx_add_s(fx_add_s(p.x as int, 65536000), pulsate), 65536000),
        fx_mul_s(fx_add_s(fx_add_s(p.y as int, 65536000), pulsate), 65536000),
        fx_add_s(fx_mul_s(p.z as int, 65536000), tf),
    );
    let nv = fx_mul_s(fx_add_s(nv1, nv2), FX_HALF as int);
    let base = if nv > 39322 {
        c1
    } else if nv > 26214 {
        c2
    } else if nv > 13107 {
        c3
    } else if nv > 0 {
        c4
    } else if nv > -13107 {
        c5
    } else if nv > -26214 {
        c6
    } else {
        c7
    };
    let diffuse = max0_s(dot3_s(light_dir_s(), f.normal));
    let lit = scale_s(base, fx_add_s(39322, fx_mul_s(26214, diffuse)));
    scale_s(lit, f.intensity as int)
}

pub fn planeta_rocoso(fragment: &Fragment, uniforms: &Uniforms) -> (c: Color)
    ensures
        c == planeta_rocoso_s(*fragment, *uniforms),
{
    let color_1 = Color::new(245, 222, 179);
    let color_2 = Color::new(222, 184, 135);
    let color_3 = Color::new(210, 180, 140);
    let color_4 = Color::new(188, 143, 143);
    let color_5 = Color::new(205, 133, 63);
    let color_6 = Color::new(139, 69, 19);
    let color_7 = Color::new(160, 82, 45);
    let position = Fx3 {
        x: fragment.vertex_position.x,
        y: fragment.vertex_position.y,
        z: fragment.depth,
    };
    let tf: i64 = (uniforms.time as i64) * 655;
    let pulsate: i64 = fx_mul(fx_wave(fx_mul(tf, FX_HALF)), 6554);
    let noise_value1: i64 = uniforms.noise.get_noise_3d(
        fx_mul(fx_add(position.x, pulsate), 65536000),
        fx_mul(fx_add(position.y, pulsate), 65536000),
        fx_add(fx_mul(position.z, 65536000), tf),
    );
    let noise_value2: i64 = uniforms.noise.get_noise_3d(
        fx_mul(fx_add(fx_add(position.x, 65536000), pulsate), 65536000),
        fx_mul(fx_add(fx_add(position.y, 65536000), pulsate), 65536000),
        fx_add(fx_mul(position.z, 65536000), tf),
    );
    let noise_value: i64 = fx_mul(fx_add(noise_value1, noise_value2), FX_HALF);
    let base_color = if noise_value > 39322 {
        color_1
    } else if noise_value > 26214 {
        color_2
    } else if noise_value > 13107 {
        color_3
    } else if noise_value > 0 {
        color_4
    } else if noise_value > -13107 {
        color_5
    } else if noise_value > -26214 {
        color_6
    } else {
        color_7
    };
    let light_dir = Fx3 { x: 43690, y: 43690, z: 21845 };
    let d: i64 = dot3(&light_dir, &fragment.normal);
    let diffuse_intensity: i64 = if d < 0 {
        0
    } else {
        d
    };
    let final_color = base_color.scale(fx_add(39322, fx_mul(26214, diffuse_intensity)));
    final_color.scale(fragment.intensity)
}

/// Gas giant: averaged drifting noise against a latitude falloff.
pub open spec fn planeta_gaseoso_s(f: Fragment, u: Uniforms) -> Color {
    let cloud = Color { r: 255, g: 255, b: 255 };
    let fog = Color { r: 120, g: 120, b: 120 };
    let p = Fx3 { x: f.vertex_position.x, y: f.vertex_position.y, z: f.depth };
    let tf = (u.time as int) * 655;
    let pulsate = fx_mul_s(wave_s(fx_mul_s(tf, 19661)), FX_HALF as int);
    let nv1 = noise3_s(
        u.noise.seed,
        fx_mul_s(fx_add_s(p.x as int, pulsate), 13107200),
        fx_mul_s(fx_add_s(p.y as int, pulsate), 13107200),
        fx_add_s(fx_mul_s(p.z as int, 13107200), tf),
    );
    let nv2 = noise3_s(
        u.noise.seed,
        fx_mul_s(fx_sub_s(p.x as int, pulsate), 13107200),
        fx_mul_s(fx_sub_s(p.y as int, pulsate), 13107200),
        fx_sub_s(fx_mul_s(p.z as int, 13107200), tf),
    );
    let nv = fx_mul_s(fx_add_s(nv1, nv2), FX_HALF as int);
    let gradient = fx_clamp01_s(fx_sub_s(FX_ONE as int, fx_abs_s(p.y as int)));
    let final_color = lerp_s(
        lerp_s(cloud, fog, fx_abs_s(nv)),
        fog,
        fx_sub_s(FX_ONE as int, gradient),
    );
    scale_s(final_color, f.intensity as int)
}

pub fn planeta_gaseoso(fragment: &Fragment, uniforms: &Uniforms) -> (c: Color)
    ensures
        c == planeta_gaseoso_s(*fragment, *uniforms),
{
    let cloud_color = Color::new(255, 255, 255);
    let fog_color = Color::new(120, 120, 120);
    let position = Fx3 {
        x: fragment.vertex_position.x,
        y: fragment.vertex_position.y,
        z: fragment.depth,
    };
    let tf: i64 = (uniforms.time as i64) * 655;
    let pulsate: i64 = fx_mul(fx_wave(fx_mul(tf, 19661)), FX_HALF);
    let noise_value1: i64 = uniforms.noise.get_noise_3d(
        fx_mul(fx_add(position.x, pulsate), 13107200),
        fx_mul(fx_add(position.y, pulsate), 13107200),
        fx_add(fx_mul(position.z, 13107200), tf),
    );
    let noise_value2: i64 = uniforms.noise.get_noise_3d(
        fx_mul(fx_sub(position.x, pulsate), 13107200),
        fx_mul(fx_sub(position.y, pulsate), 13107200),
        fx_sub(fx_mul(position.z, 13107200), tf),
    );
    let noise_value: i64 = fx_mul(fx_add(noise_value1, noise_value2), FX_HALF);
    let gradient: i64 = fx_clamp01(fx_sub(FX_ONE, fx_abs(position.y)));
    let final_color = cloud_color.lerp(&fog_color, fx_abs(noise_value)).lerp(
        &fog_color,
        fx_sub(FX_ONE, gradient),
    );
    final_color.scale(fragment.intensity)
}

/// Clay planet: five blue bands from averaged noise, faded toward the deep
/// color by the latitude falloff.
pub open spec fn planeta_arcilla_s(f: Fragment, u: Uniforms) -> Color {
    let c1 = Color { r: 173, g: 216, b: 230 };
    let c2 = Color { r: 135, g: 206, b: 250 };
    let c3 = Color { r: 70, g: 130, b: 180 };
    let c4 = Color { r: 30, g: 144, b: 255 };
    let c5 = Color { r: 0, g: 105, b: 148 };
    let p = Fx3 { x: f.vertex_position.x, y: f.vertex_position.y, z: f.depth };
    let tf = (u.time as int) * 1311;
    let pulsate = fx_mul_s(wave_s(fx_mul_s(tf, 19661)), 19661);
    let nv1 = noise3_s(
        u.noise.seed,
        fx_mul_s(fx_add_s(p.x as int, pulsate), 32768000),
        fx_mul_s(fx_add_s(p.y as int, pulsate), 32768000),
        fx_add_s(fx_mul_s(p.z as int, 32768000), tf),
    );
    let nv2 = noise3_s(
        u.noise.seed,
        fx_mul_s(fx_sub_s(p.x as int, pulsate), 32768000),
        fx_mul_s(fx_sub_s(p.y as int, pulsate), 32768000),
        fx_sub_s(fx_mul_s(p.z as int, 32768000), tf),
    );
    let nv = fx_mul_s(fx_add_s(nv1, nv2), FX_HALF as int);
    let gradient = fx_clamp01_s(fx_sub_s(FX_ONE as int, fx_abs_s(p.y as int)));
    let base = if nv > 26214 {
        c1
    } else if nv > 13107 {
        c2
    } else if nv > 0 {
        c3
    } else if nv > -13107 {
        c4
    } else {
        c5
    };
    scale_s(lerp_s(base, c5, fx_sub_s(FX_ONE as int, gradient)), f.intensity as int)
}

pub fn planeta_arcilla(fragment: &Fragment, uniforms: &Uniforms) -> (c: Color)
    ensures
        c == planeta_arcilla_s(*fragment, *uniforms),
{
    let color_1 = Color::new(173, 216, 230);
    let color_2 = Color::new(135, 206, 250);
    let color_3 = Color::new(70, 130, 180);
    let color_4 = Color::new(30, 144, 255);
    let color_5 = Color::new(0, 105, 148);
    let position = Fx3 {
        x: fragment.vertex_position.x,
        y: fragment.vertex_position.y,
        z: fragment.depth,
    };
    let tf: i64 = (uniforms.time as i64) * 1311;
    let pulsate: i64 = fx_mul(fx_wave(fx_mul(tf, 19661)), 19661);
    let noise_value1: i64 = uniforms.noise.get_noise_3d(
        fx_mul(fx_add(position.x, pulsate), 32768000),
        fx_mul(fx_add(position.y, pulsate), 32768000),
        fx_add(fx_mul(position.z, 32768000), tf),
    );
    let noise_value2: i64 = uniforms.noise.get_noise_3d(
        fx_mul(fx_sub(position.x, pulsate), 32768000),
        fx_mul(fx_sub(position.y, pulsate), 32768000),
        fx_sub(fx_mul(position.z, 32768000), tf),
    );
    let noise_value: i64 = fx_mul(fx_add(noise_value1, noise_value2), FX_HALF);
    let gradient: i64 = fx_clamp01(fx_sub(FX_ONE, fx_abs(position.y)));
    let base_color = if noise_value > 26214 {
        color_1
    } else if noise_value > 13107 {
        color_2
    } else if noise_value > 0 {
        color_3
    } else if noise_value > -13107 {
        color_4
    } else {
        color_5
    };
    let final_color = base_color.lerp(&color_5, fx_sub(FX_ONE, gradient));
    final_color.scale(fragment.intensity)
}

/// Neon planet: vertical stripes whose phase itself waves over time.
pub open spec fn planeta_neon_s(f: Fragment, u: Uniforms) -> Color {
    let c1 = Color { r: 255, g: 20, b: 147 };
    let c2 = Color { r: 0, g: 191, b: 255 };
    let c3 = Color { r: 50, g: 205, b: 50 };
    let c4 = Color { r: 255, g: 255, b: 0 };
    let c5 = Color { r: 75, g: 0, b: 130 };
    let p = f.vertex_position;
    let tf = (u.time as int) * 2621;
    let wave_movement = wave_s(
        fx_add_s(fx_add_s(fx_mul_s(p.x as int, 655360), fx_mul_s(p.y as int, 655360)), tf),
    );
    let wv = wave_s(fx_add_s(fx_mul_s(p.x as int, 655360), wave_movement));
    let base = if wv < -52429 {
        c1
    } else if wv < -26214 {
        c2
    } else if wv < 0 {
        c3
    } else if wv < 26214 {
        c4
    } else {
        c5
    };
    scale_s(base, f.intensity as int)
}

pub fn planeta_neon(fragment: &Fragment, uniforms: &Uniforms) -> (c: Color)
    ensures
        c == planeta_neon_s(*fragment, *uniforms),
{
    let color_1 = Color::new(255, 20, 147);
    let color_2 = Color::new(0, 191, 255);
    let color_3 = Color::new(50, 205, 50);
    let color_4 = Color::new(255, 255, 0);
    let color_5 = Color::new(75, 0, 130);
    let position = fragment.vertex_position;
    let tf: i64 = (uniforms.time as i64) * 2621;
    let wave_movement: i64 = fx_wave(
        fx_add(fx_add(fx_mul(position.x, 655360), fx_mul(position.y, 655360)), tf),
    );
    let wave_value: i64 = fx_wave(fx_add(fx_mul(position.x, 655360), wave_movement));
    let base_color = if wave_value < -52429 {
        color_1
    } else if wave_value < -26214 {
        color_2
    } else if wave_value < 0 {
        color_3
    } else if wave_value < 26214 {
        color_4
    } else {
        color_5
    };
    base_color.scale(fragment.intensity)
}

/// The material a selector picks: one of the ten materials for 0 through 9,
/// the spotted default for everything else.
#[verifier::opaque]
pub open spec fn fragment_shader_s(f: Fragment, u: Uniforms, current_shader: u8) -> Color {
    if current_shader == 0 {
        planeta_neon_s(f, u)
    } else if current_shader == 1 {
        planeta_raro_s(f, u)
    } else if current_shader == 2 {
        planeta_saturno_s(f, u)
    } else if current_shader == 3 {
        planeta_azul_s(f, u)
    } else if current_shader == 4 {
        planeta_celular_s(f, u)
    } else if current_shader == 5 {
        planeta_mancha_s(f, u)
    } else if current_shader == 6 {
        sol_s(f, u)
    } else if current_shader == 7 {
        planeta_rocoso_s(f, u)
    } else if current_shader == 8 {
        planeta_gaseoso_s(f, u)
    } else if current_shader == 9 {
        planeta_arcilla_s(f, u)
    } else {
        planeta_mancha_s(f, u)
    }
}

/// Color one fragment with the selected material; an unrecognized selector
/// degrades to the default material rather than failing.
pub fn fragment_shader(fragment: &Fragment, uniforms: &Uniforms, current_shader: u8) -> (c: Color)
    ensures
        c == fragment_shader_s(*fragment, *uniforms, current_shader),
{
    proof {
        reveal(fragment_shader_s);
    }
    match current_shader {
        0 => planeta_neon(fragment, uniforms),
        1 => planeta_raro(fragment, uniforms),
        2 => planeta_saturno(fragment, uniforms),
        3 => planeta_azul(fragment, uniforms),
        4 => planeta_celular(fragment, uniforms),
        5 => planeta_mancha(fragment, uniforms),
        6 => sol(fragment, uniforms),
        7 => planeta_rocoso(fragment, uniforms),
        8 => planeta_gaseoso(fragment, uniforms),
        9 => planeta_arcilla(fragment, uniforms),
        _ => planeta_mancha(fragment, uniforms),
    }
}

/// Out-of-range selectors degrade to the default material: the dispatch
/// returns exactly what the spotted default returns on the same inputs.
pub proof fn lemma_dispatch_fallback(f: Fragment, u: Uniforms, current_shader: u8)
    requires
        current_shader > 9,
    ensures
        fragment_shader_s(f, u, current_shader) == planeta_mancha_s(f, u),
{
    reveal(fragment_shader_s);
}

} // verus!
