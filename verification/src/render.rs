//! The per-frame pipeline: the uniform bundle, the matrix builders feeding
//! it, and the render entry point driving transform, rasterization, shading
//! and the depth-tested framebuffer writes.

use vstd::prelude::*;
use crate::fixed::{
    cowave_s, fx_add, fx_add_s, fx_cowave, fx_div, fx_div_s, fx_mul, fx_mul_s, fx_sub, fx_sub_s,
    fx_wave, wave_s, FX_HALF, FX_ONE,
};
use crate::geometry::{
    cross, cross_s, dot3, dot3_s, mat_mul, mat_mul_s, normalize, normalize_s, sub3, sub3_s, Fx3,
    Mat4,
};
use crate::color::hex_s;
use crate::fragment::Fragment;
use crate::framebuffer::Framebuffer;
use crate::noise::NoiseSource;
use crate::vertex::Vertex;

verus! {

/// The per-draw-call uniform bundle: the transform chain, the frame counter,
/// and the noise source for the procedural materials.  Built fresh per object
/// per frame and never mutated afterwards.
pub struct Uniforms {
    pub model_matrix: Mat4,
    pub view_matrix: Mat4,
    pub projection_matrix: Mat4,
    pub viewport_matrix: Mat4,
    pub time: u32,
    pub noise: NoiseSource,
}

/// The seed every frame's noise source is built from.
pub const NOISE_SEED: u64 = 1337;

/// The noise source used by the cloud-like materials.
pub fn create_cloud_noise() -> (n: NoiseSource)
    ensures
        n.seed == NOISE_SEED,
{
    NoiseSource::with_seed(NOISE_SEED)
}

/// The frame's noise source: the cloud noise with the fixed seed.
pub fn create_noise() -> (n: NoiseSource)
    ensures
        n.seed == NOISE_SEED,
{
    create_cloud_noise()
}

/// Rotation about the x axis by an angle in fixed-point turns.
pub open spec fn rot_x_s(a: int) -> Mat4 {
    Mat4 {
        m00: FX_ONE, m01: 0, m02: 0, m03: 0,
        m10: 0, m11: cowave_s(a) as i64, m12: (-wave_s(a)) as i64, m13: 0,
        m20: 0, m21: wave_s(a) as i64, m22: cowave_s(a) as i64, m23: 0,
        m30: 0, m31: 0, m32: 0, m33: FX_ONE,
    }
}

/// Rotation about the y axis by an angle in fixed-point turns.
pub open spec fn rot_y_s(a: int) -> Mat4 {
    Mat4 {
        m00: cowave_s(a) as i64, m01: 0, m02: wave_s(a) as i64, m03: 0,
        m10: 0, m11: FX_ONE, m12: 0, m13: 0,
        m20: (-wave_s(a)) as i64, m21: 0, m22: cowave_s(a) as i64, m23: 0,
        m30: 0, m31: 0, m32: 0, m33: FX_ONE,
    }
}

/// Rotation about the z axis by an angle in fixed-point turns.
pub open spec fn rot_z_s(a: int) -> Mat4 {
    Mat4 {
        m00: cowave_s(a) as i64, m01: (-wave_s(a)) as i64, m02: 0, m03: 0,
        m10: wave_s(a) as i64, m11: cowave_s(a) as i64, m12: 0, m13: 0,
        m20: 0, m21: 0, m22: FX_ONE, m23: 0,
        m30: 0, m31: 0, m32: 0, m33: FX_ONE,
    }
}

/// Uniform scale plus translation.
pub open spec fn scale_translate_s(translation: Fx3, scale: i64) -> Mat4 {
    Mat4 {
        m00: scale, m01: 0, m02: 0, m03: translation.x,
        m10: 0, m11: scale, m12: 0, m13: translation.y,
        m20: 0, m21: 0, m22: scale, m23: translation.z,
        m30: 0, m31: 0, m32: 0, m33: FX_ONE,
    }
}

/// The model matrix: scale-and-translate composed with the z, y, x rotations.
pub open spec fn model_matrix_s(translation: Fx3, scale: i64, rotation: Fx3) -> Mat4 {
    mat_mul_s(
        scale_translate_s(translation, scale),
        mat_mul_s(rot_z_s(rotation.z as int), mat_mul_s(rot_y_s(rotation.y as int), rot_x_s(rotation.x as int))),
    )
}

fn rot_x(a: i64) -> (r: Mat4)
    ensures
        r == rot_x_s(a as int),
{
    let s: i64 = fx_wave(a);
    let c: i64 = fx_cowave(a);
    Mat4 {
        m00: FX_ONE, m01: 0, m02: 0, m03: 0,
        m10: 0, m11: c, m12: -s, m13: 0,
        m20: 0, m21: s, m22: c, m23: 0,
        m30: 0, m31: 0, m32: 0, m33: FX_ONE,
    }
}

fn rot_y(a: i64) -> (r: Mat4)
    ensures
        r == rot_y_s(a as int),
{
    let s: i64 = fx_wave(a);
    let c: i64 = fx_cowave(a);
    Mat4 {
        m00: c, m01: 0, m02: s, m03: 0,
        m10: 0, m11: FX_ONE, m12: 0, m13: 0,
        m20: -s, m21: 0, m22: c, m23: 0,
        m30: 0, m31: 0, m32: 0, m33: FX_ONE,
    }
}

fn rot_z(a: i64) -> (r: Mat4)
    ensures
        r == rot_z_s(a as int),
{
    let s: i64 = fx_wave(a);
    let c: i64 = fx_cowave(a);
    Mat4 {
        m00: c, m01: -s, m02: 0, m03: 0,
        m10: s, m11: c, m12: 0, m13: 0,
        m20: 0, m21: 0, m22: FX_ONE, m23: 0,
        m30: 0, m31: 0, m32: 0, m33: FX_ONE,
    }
}

/// Build the model matrix from a translation, a uniform scale and per-axis
/// rotation angles (fixed-point turns): translation and scale applied after
/// the z * y * x rotation chain.
pub fn create_model_matrix(translation: Fx3, scale: i64, rotation: Fx3) -> (r: Mat4)
    ensures
        r == model_matrix_s(translation, scale, rotation),
{
    let rotation_matrix: Mat4 = mat_mul(
        &rot_z(rotation.z),
        &mat_mul(&rot_y(rotation.y), &rot_x(rotation.x)),
    );
    let transform_matrix = Mat4 {
        m00: scale, m01: 0, m02: 0, m03: translation.x,
        m10: 0, m11: scale, m12: 0, m13: translation.y,
        m20: 0, m21: 0, m22: scale, m23: translation.z,
        m30: 0, m31: 0, m32: 0, m33: FX_ONE,
    };
    mat_mul(&transform_matrix, &rotation_matrix)
}

/// The right-handed look-at view matrix.
pub open spec fn view_matrix_s(eye: Fx3, center: Fx3, up: Fx3) -> Mat4 {
    let f = normalize_s(sub3_s(center, eye));
    let s = normalize_s(cross_s(f, up));
    let u = cross_s(s, f);
    Mat4 {
        m00: s.x, m01: s.y, m02: s.z, m03: fx_sub_s(0, dot3_s(s, eye)) as i64,
        m10: u.x, m11: u.y, m12: u.z, m13: fx_sub_s(0, dot3_s(u, eye)) as i64,
        m20: fx_sub_s(0, f.x as int) as i64, m21: fx_sub_s(0, f.y as int) as i64, m22: fx_sub_s(
            0,
            f.z as int,
        ) as i64, m23: dot3_s(f, eye) as i64,
        m30: 0, m31: 0, m32: 0, m33: FX_ONE,
    }
}

/// Build the view matrix from the camera's eye, target and up vectors.
pub fn create_view_matrix(eye: Fx3, center: Fx3, up: Fx3) -> (r: Mat4)
    ensures
        r == view_matrix_s(eye, center, up),
{
    let f: Fx3 = normalize(&sub3(&center, &eye));
    let s: Fx3 = normalize(&cross(&f, &up));
    let u: Fx3 = cross(&s, &f);
    Mat4 {
        m00: s.x, m01: s.y, m02: s.z, m03: fx_sub(0, dot3(&s, &eye)),
        m10: u.x, m11: u.y, m12: u.z, m13: fx_sub(0, dot3(&u, &eye)),
        m20: fx_sub(0, f.x), m21: fx_sub(0, f.y), m22: fx_sub(0, f.z), m23: dot3(&f, &eye),
        m30: 0, m31: 0, m32: 0, m33: FX_ONE,
    }
}

/// Cotangent of half the 45-degree field of view, in fixed point.
pub const PERSPECTIVE_COT: i64 = 158218;

/// The near plane distance (one tenth), in fixed point.
pub const PERSPECTIVE_NEAR: i64 = 6554;

/// The far plane distance (one thousand), in fixed point.
pub const PERSPECTIVE_FAR: i64 = 65536000;

/// The symmetric perspective projection for a 45-degree vertical field of
/// view, mapping depth into [-1, 1].
pub open spec fn perspective_matrix_s(width: int, height: int) -> Mat4 {
    let aspect = fx_div_s(width, height);
    let nf = fx_sub_s(PERSPECTIVE_NEAR as int, PERSPECTIVE_FAR as int);
    Mat4 {
        m00: fx_div_s(PERSPECTIVE_COT as int, aspect) as i64, m01: 0, m02: 0, m03: 0,
        m10: 0, m11: PERSPECTIVE_COT, m12: 0, m13: 0,
        m20: 0, m21: 0, m22: fx_div_s(
            fx_add_s(PERSPECTIVE_FAR as int, PERSPECTIVE_NEAR as int),
            nf,
        ) as i64, m23: fx_div_s(
            fx_mul_s(fx_mul_s(2 * FX_ONE, PERSPECTIVE_FAR as int), PERSPECTIVE_NEAR as int),
            nf,
        ) as i64,
        m30: 0, m31: 0, m32: (-FX_ONE) as i64, m33: 0,
    }
}

/// Build the perspective projection from the window size in fixed point.
pub fn create_perspective_matrix(window_width: i64, window_height: i64) -> (r: Mat4)
    ensures
        r == perspective_matrix_s(window_width as int, window_height as int),
{
    let aspect: i64 = fx_div(window_width, window_height);
    let nf: i64 = fx_sub(PERSPECTIVE_NEAR, PERSPECTIVE_FAR);
    Mat4 {
        m00: fx_div(PERSPECTIVE_COT, aspect), m01: 0, m02: 0, m03: 0,
        m10: 0, m11: PERSPECTIVE_COT, m12: 0, m13: 0,
        m20: 0, m21: 0, m22: fx_div(fx_add(PERSPECTIVE_FAR, PERSPECTIVE_NEAR), nf), m23: fx_div(
            fx_mul(fx_mul(2 * FX_ONE, PERSPECTIVE_FAR), PERSPECTIVE_NEAR),
            nf,
        ),
        m30: 0, m31: 0, m32: -FX_ONE, m33: 0,
    }
}

/// The viewport transform: scales normalized device coordinates into pixel
/// coordinates, flipping the vertical axis for the top-left origin.
pub open spec fn viewport_matrix_s(width: int, height: int) -> Mat4 {
    Mat4 {
        m00: fx_mul_s(width, FX_HALF as int) as i64, m01: 0, m02: 0, m03: fx_mul_s(
            width,
            FX_HALF as int,
        ) as i64,
        m10: 0, m11: fx_sub_s(0, fx_mul_s(height, FX_HALF as int)) as i64, m12: 0, m13: fx_mul_s(
            height,
            FX_HALF as int,
        ) as i64,
        m20: 0, m21: 0, m22: FX_ONE, m23: 0,
        m30: 0, m31: 0, m32: 0, m33: FX_ONE,
    }
}

/// Build the viewport matrix from the framebuffer size in fixed point.
pub fn create_viewport_matrix(width: i64, height: i64) -> (r: Mat4)
    ensures
        r == viewport_matrix_s(width as int, height as int),
{
    let hw: i64 = fx_mul(width, FX_HALF);
    let hh: i64 = fx_mul(height, FX_HALF);
    Mat4 {
        m00: hw, m01: 0, m02: 0, m03: hw,
        m10: 0, m11: fx_sub(0, hh), m12: 0, m13: hh,
        m20: 0, m21: 0, m22: FX_ONE, m23: 0,
        m30: 0, m31: 0, m32: 0, m33: FX_ONE,
    }
}

/// A background image as plain packed pixels: width, height and one 0xRRGGBB
/// value per pixel, row-major.
pub struct Texture {
    pub width: usize,
    pub height: usize,
    pub pixels: Vec<u32>,
}

impl Texture {
    pub open spec fn wf(self) -> bool {
        self.pixels@.len() == self.width * self.height && self.width * self.height <= usize::MAX
    }

    pub fn new(width: usize, height: usize, pixels: Vec<u32>) -> (t: Texture)
        requires
            pixels@.len() == width * height,
            width * height <= usize::MAX,
        ensures
            t.wf(),
            t.width == width,
            t.height == height,
            t.pixels@ == pixels@,
    {
        Texture { width, height, pixels }
    }
}

/// A triangle whose clamped bounding box misses the screen entirely: every
/// fragment it could produce fails the screen-bounds test, or it produces
/// none.
pub open spec fn offscreen_s(v1: Vertex, v2: Vertex, v3: Vertex, w: int, h: int) -> bool {
    ||| crate::triangle::bbox_min_x_s(v1, v2, v3) >= w
    ||| crate::triangle::bbox_min_y_s(v1, v2, v3) >= h
    ||| crate::triangle::bbox_max_x_s(v1, v2, v3) < crate::triangle::bbox_min_x_s(v1, v2, v3)
    ||| crate::triangle::bbox_max_y_s(v1, v2, v3) < crate::triangle::bbox_min_y_s(v1, v2, v3)
    ||| crate::triangle::area2_s(v1, v2, v3) == 0
}

/// Every triple of the vertex list transforms to an off-screen triangle (a
/// trailing partial triple is discarded and does not count).
pub open spec fn all_offscreen_s(u: Uniforms, vs: Seq<Vertex>, w: int, h: int) -> bool {
    forall|t: int|
        0 <= t && 3 * t + 2 < vs.len() ==> #[trigger] offscreen_s(
            crate::shaders::vertex_shader_s(vs[3 * t], u),
            crate::shaders::vertex_shader_s(vs[3 * t + 1], u),
            crate::shaders::vertex_shader_s(vs[3 * t + 2], u),
            w,
            h,
        )
}

/// The vertices of the t-th triple of the vertex list, transformed.
pub open spec fn tri_a_s(u: Uniforms, vs: Seq<Vertex>, t: int) -> Vertex {
    crate::shaders::vertex_shader_s(vs[3 * t], u)
}

pub open spec fn tri_b_s(u: Uniforms, vs: Seq<Vertex>, t: int) -> Vertex {
    crate::shaders::vertex_shader_s(vs[3 * t + 1], u)
}

pub open spec fn tri_c_s(u: Uniforms, vs: Seq<Vertex>, t: int) -> Vertex {
    crate::shaders::vertex_shader_s(vs[3 * t + 2], u)
}

/// Triple t submits a depth-tested write at pixel (x, y) of a w-by-h screen:
/// the rasterizer emits a fragment there (the pixel is covered and inside the
/// clamped bounding box) and the screen-bounds filter passes it.
pub open spec fn submits_s(
    u: Uniforms,
    vs: Seq<Vertex>,
    t: int,
    w: int,
    h: int,
    x: int,
    y: int,
) -> bool {
    let a = tri_a_s(u, vs, t);
    let b = tri_b_s(u, vs, t);
    let c = tri_c_s(u, vs, t);
    &&& crate::triangle::covered_s(a, b, c, x, y)
    &&& crate::triangle::bbox_min_x_s(a, b, c) <= x <= crate::triangle::bbox_max_x_s(a, b, c)
    &&& crate::triangle::bbox_min_y_s(a, b, c) <= y <= crate::triangle::bbox_max_y_s(a, b, c)
    &&& 0 <= x < w
    &&& 0 <= y < h
}

/// The depth of that write: the interpolated depth of the fragment at (x, y).
pub open spec fn submit_depth_s(u: Uniforms, vs: Seq<Vertex>, t: int, x: int, y: int) -> i64 {
    crate::triangle::frag_s(tri_a_s(u, vs, t), tri_b_s(u, vs, t), tri_c_s(u, vs, t), x, y).depth
}

/// The packed color of that write: the selected material shading the
/// fragment at (x, y).
pub open spec fn submit_color_s(
    u: Uniforms,
    vs: Seq<Vertex>,
    sel: u8,
    t: int,
    x: int,
    y: int,
) -> u32 {
    hex_s(
        crate::shaders::fragment_shader_s(
            crate::triangle::frag_s(tri_a_s(u, vs, t), tri_b_s(u, vs, t), tri_c_s(u, vs, t), x, y),
            u,
            sel,
        ),
    ) as u32
}

/// The color and depth pixel (x, y) holds after the first n triples have
/// drawn over the starting buffers, each write through the closer-wins depth
/// test, in triple order.
pub open spec fn pixel_after_s(
    u: Uniforms,
    vs: Seq<Vertex>,
    sel: u8,
    w: int,
    h: int,
    buf0: Seq<u32>,
    zbuf0: Seq<i64>,
    x: int,
    y: int,
    n: int,
) -> (u32, i64)
    decreases n,
{
    if n <= 0 {
        (buf0[y * w + x], zbuf0[y * w + x])
    } else {
        let prev = pixel_after_s(u, vs, sel, w, h, buf0, zbuf0, x, y, n - 1);
        if submits_s(u, vs, n - 1, w, h, x, y) && submit_depth_s(u, vs, n - 1, x, y) < prev.1 {
            (submit_color_s(u, vs, sel, n - 1, x, y), submit_depth_s(u, vs, n - 1, x, y))
        } else {
            prev
        }
    }
}

/// A pixel that no triple submits to keeps its starting color and depth.  In
/// particular, a triangle all of whose covered pixels lie outside the screen
/// bounds submits nowhere on screen, so it contributes no framebuffer write.
pub proof fn lemma_unsubmitted_pixel_unchanged(
    u: Uniforms,
    vs: Seq<Vertex>,
    sel: u8,
    w: int,
    h: int,
    buf0: Seq<u32>,
    zbuf0: Seq<i64>,
    x: int,
    y: int,
    n: int,
)
    requires
        forall|t: int| 0 <= t < n ==> !#[trigger] submits_s(u, vs, t, w, h, x, y),
    ensures
        pixel_after_s(u, vs, sel, w, h, buf0, zbuf0, x, y, n) == (buf0[y * w + x], zbuf0[y * w
            + x]),
    decreases n,
{
    if n > 0 {
        lemma_unsubmitted_pixel_unchanged(u, vs, sel, w, h, buf0, zbuf0, x, y, n - 1);
    }
}

/// A fragment of the processed prefix sits at pixel (x, y).
spec fn processed_s(fr: Seq<Fragment>, fi: int, x: int, y: int) -> bool {
    exists|j: int| 0 <= j < fi && (#[trigger] fr[j]).x == x && fr[j].y == y
}

proof fn lemma_processed_step(fr: Seq<Fragment>, fi: int, x: int, y: int)
    requires
        0 <= fi < fr.len(),
        !(fr[fi].x == x && fr[fi].y == y),
    ensures
        processed_s(fr, fi + 1, x, y) == processed_s(fr, fi, x, y),
{
    if processed_s(fr, fi + 1, x, y) {
        let j = choose|j: int| 0 <= j < fi + 1 && (#[trigger] fr[j]).x == x && fr[j].y == y;
        assert(j < fi);
        assert(processed_s(fr, fi, x, y));
    }
}

/// Render one mesh instance: transform every vertex, group the transformed
/// vertices in triples (discarding a trailing partial triple), rasterize each
/// triangle, shade every fragment with the selected material and commit it
/// through the depth-tested point write.  Every on-screen pixel ends exactly
/// at the fold of its triples' depth-tested writes, in draw order; fragments
/// outside the screen bounds are dropped, and when every triangle misses the
/// screen the framebuffer is left exactly as it was.
#[verifier::rlimit(100)]
pub fn render(
    framebuffer: &mut Framebuffer,
    uniforms: &Uniforms,
    vertex_array: &Vec<Vertex>,
    current_shader: u8,
)
    requires
        old(framebuffer).wf(),
    ensures
        final(framebuffer).wf(),
        final(framebuffer).width == old(framebuffer).width,
        final(framebuffer).height == old(framebuffer).height,
        forall|x: int, y: int|
            #![trigger pix_idx_s(old(framebuffer).width as int, x, y)]
            0 <= x < old(framebuffer).width && 0 <= y < old(framebuffer).height ==> {
                let pr = pixel_after_s(
                    *uniforms,
                    vertex_array@,
                    current_shader,
                    old(framebuffer).width as int,
                    old(framebuffer).height as int,
                    old(framebuffer).buffer@,
                    old(framebuffer).zbuffer@,
                    x,
                    y,
                    vertex_array@.len() as int / 3,
                );
                final(framebuffer).buffer@[pix_idx_s(old(framebuffer).width as int, x, y)]
                    == pr.0 && final(framebuffer).zbuffer@[pix_idx_s(
                    old(framebuffer).width as int,
                    x,
                    y,
                )] == pr.1
            },
        all_offscreen_s(
            *uniforms,
            vertex_array@,
            old(framebuffer).width as int,
            old(framebuffer).height as int,
        ) ==> {
            &&& final(framebuffer).buffer@ == old(framebuffer).buffer@
            &&& final(framebuffer).zbuffer@ == old(framebuffer).zbuffer@
            &&& final(framebuffer).current_color == old(framebuffer).current_color
        },
{
    let ghost fb0 = *old(framebuffer);
    let ghost us = *uniforms;
    let ghost vsq = vertex_array@;
    let ghost w0 = fb0.width as int;
    let ghost h0 = fb0.height as int;
    let n: usize = vertex_array.len();
    let mut transformed_vertices: Vec<Vertex> = Vec::new();
    let mut i: usize = 0;
    while i < n
        invariant
            i <= n,
            n == vsq.len(),
            vsq == vertex_array@,
            us == *uniforms,
            transformed_vertices@.len() == i,
            forall|j: int|
                0 <= j < i ==> transformed_vertices@[j] == crate::shaders::vertex_shader_s(
                    vsq[j],
                    us,
                ),
        decreases n - i,
    {
        let transformed = crate::shaders::vertex_shader(&vertex_array[i], uniforms);
        transformed_vertices.push(transformed);
        i = i + 1;
    }
    let nt: usize = n / 3;
    proof {
        vstd::arithmetic::div_mod::lemma_fundamental_div_mod(n as int, 3);
    }
    let mut t: usize = 0;
    while t < nt
        invariant
            t <= nt,
            nt == n / 3,
            3 * nt <= n,
            n == vsq.len(),
            vsq == vertex_array@,
            us == *uniforms,
            framebuffer.wf(),
            framebuffer.width == fb0.width,
            framebuffer.height == fb0.height,
            fb0.wf(),
            w0 == fb0.width as int,
            h0 == fb0.height as int,
            transformed_vertices@.len() == n,
            forall|j: int|
                0 <= j < n ==> transformed_vertices@[j] == crate::shaders::vertex_shader_s(
                    vsq[j],
                    us,
                ),
            forall|x: int, y: int|
                #![trigger pix_idx_s(w0, x, y)]
                0 <= x < w0 && 0 <= y < h0 ==> {
                    let pr = pixel_after_s(
                        us,
                        vsq,
                        current_shader,
                        w0,
                        h0,
                        fb0.buffer@,
                        fb0.zbuffer@,
                        x,
                        y,
                        t as int,
                    );
                    framebuffer.buffer@[pix_idx_s(w0, x, y)] == pr.0
                        && framebuffer.zbuffer@[pix_idx_s(w0, x, y)] == pr.1
                },
            all_offscreen_s(us, vsq, w0, h0) ==> framebuffer.buffer@ == fb0.buffer@
                && framebuffer.zbuffer@ == fb0.zbuffer@ && framebuffer.current_color
                == fb0.current_color,
        decreases nt - t,
    {
        let k: usize = 3 * t;
        let va: Vertex = transformed_vertices[k];
        let vb: Vertex = transformed_vertices[k + 1];
        let vc: Vertex = transformed_vertices[k + 2];
        let fragments: Vec<Fragment> = crate::triangle::triangle(&va, &vb, &vc);
        let ghost frq = fragments@;
        let mut fi: usize = 0;
        while fi < fragments.len()
            invariant
                fi <= frq.len(),
                frq == fragments@,
                t < nt,
                nt == n / 3,
                3 * nt <= n,
                n == vsq.len(),
                vsq == vertex_array@,
                us == *uniforms,
                framebuffer.wf(),
                framebuffer.width == fb0.width,
                framebuffer.height == fb0.height,
                fb0.wf(),
                w0 == fb0.width as int,
                h0 == fb0.height as int,
                va == tri_a_s(us, vsq, t as int),
                vb == tri_b_s(us, vsq, t as int),
                vc == tri_c_s(us, vsq, t as int),
                forall|j: int|
                    0 <= j < frq.len() ==> {
                        let f = #[trigger] frq[j];
                        &&& crate::triangle::covered_s(va, vb, vc, f.x as int, f.y as int)
                        &&& f == crate::triangle::frag_s(va, vb, vc, f.x as int, f.y as int)
                        &&& crate::triangle::bbox_min_x_s(va, vb, vc) <= f.x
                            <= crate::triangle::bbox_max_x_s(va, vb, vc)
                        &&& crate::triangle::bbox_min_y_s(va, vb, vc) <= f.y
                            <= crate::triangle::bbox_max_y_s(va, vb, vc)
                    },
                forall|px: int, py: int|
                    #![trigger crate::triangle::covered_s(va, vb, vc, px, py)]
                    crate::triangle::bbox_min_x_s(va, vb, vc) <= px
                        <= crate::triangle::bbox_max_x_s(va, vb, vc)
                        && crate::triangle::bbox_min_y_s(va, vb, vc) <= py
                        <= crate::triangle::bbox_max_y_s(va, vb, vc)
                        && crate::triangle::covered_s(va, vb, vc, px, py)
                        ==> crate::triangle::emits_pixel_s(frq, px, py),
                forall|x: int, y: int|
                    #![trigger pix_idx_s(w0, x, y)]
                    0 <= x < w0 && 0 <= y < h0 ==> {
                        let stage: int = if processed_s(frq, fi as int, x, y) {
                            t as int + 1
                        } else {
                            t as int
                        };
                        let pr = pixel_after_s(
                            us,
                            vsq,
                            current_shader,
                            w0,
                            h0,
                            fb0.buffer@,
                            fb0.zbuffer@,
                            x,
                            y,
                            stage,
                        );
                        framebuffer.buffer@[pix_idx_s(w0, x, y)] == pr.0
                            && framebuffer.zbuffer@[pix_idx_s(w0, x, y)] == pr.1
                    },
                all_offscreen_s(us, vsq, w0, h0) ==> framebuffer.buffer@ == fb0.buffer@
                    && framebuffer.zbuffer@ == fb0.zbuffer@ && framebuffer.current_color
                    == fb0.current_color,
            decreases frq.len() - fi,
        {
            let fragment: Fragment = fragments[fi];
            let x: usize = fragment.x;
            let y: usize = fragment.y;
            if x < framebuffer.width && y < framebuffer.height {
                proof {
                    if all_offscreen_s(us, vsq, w0, h0) {
                        assert(offscreen_s(va, vb, vc, w0, h0));
                        assert(false);
                    }
                }
                let shaded_color = crate::shaders::fragment_shader(
                    &fragment,
                    uniforms,
                    current_shader,
                );
                let color: u32 = shaded_color.to_hex();
                framebuffer.set_current_color(color);
                let ghost before = *framebuffer;
                framebuffer.point(x, y, fragment.depth);
                proof {
                    crate::framebuffer::lemma_row_major_index(w0, h0, x as int, y as int);
                    let idx0 = pix_idx_s(w0, x as int, y as int);
                    assert(submits_s(us, vsq, t as int, w0, h0, x as int, y as int));
                    assert(fragment.depth == submit_depth_s(us, vsq, t as int, x as int, y as int));
                    assert(color as int == hex_s(
                        crate::shaders::fragment_shader_s(
                            crate::triangle::frag_s(va, vb, vc, x as int, y as int),
                            us,
                            current_shader,
                        ),
                    ));
                    assert(color == submit_color_s(
                        us,
                        vsq,
                        current_shader,
                        t as int,
                        x as int,
                        y as int,
                    ));
                    assert forall|qx: int, qy: int|
                        0 <= qx < w0 && 0 <= qy < h0 implies {
                        let stage: int = if processed_s(frq, fi as int + 1, qx, qy) {
                            t as int + 1
                        } else {
                            t as int
                        };
                        let pr = pixel_after_s(
                            us,
                            vsq,
                            current_shader,
                            w0,
                            h0,
                            fb0.buffer@,
                            fb0.zbuffer@,
                            qx,
                            qy,
                            stage,
                        );
                        framebuffer.buffer@[#[trigger] pix_idx_s(w0, qx, qy)] == pr.0
                            && framebuffer.zbuffer@[pix_idx_s(w0, qx, qy)] == pr.1
                    } by {
                        crate::framebuffer::lemma_row_major_index(w0, h0, qx, qy);
                        let idx = pix_idx_s(w0, qx, qy);
                        let prv = pixel_after_s(
                            us,
                            vsq,
                            current_shader,
                            w0,
                            h0,
                            fb0.buffer@,
                            fb0.zbuffer@,
                            qx,
                            qy,
                            t as int,
                        );
                        let nxt = pixel_after_s(
                            us,
                            vsq,
                            current_shader,
                            w0,
                            h0,
                            fb0.buffer@,
                            fb0.zbuffer@,
                            qx,
                            qy,
                            t as int + 1,
                        );
                        if qx == x as int && qy == y as int {
                            assert(processed_s(frq, fi as int + 1, qx, qy)) by {
                                assert(frq[fi as int].x == x && frq[fi as int].y == y);
                            }
                            if processed_s(frq, fi as int, qx, qy) {
                                assert(before.buffer@[idx] == nxt.0 && before.zbuffer@[idx]
                                    == nxt.1);
                                assert(!(fragment.depth < nxt.1));
                                assert(framebuffer.buffer@[idx] == nxt.0
                                    && framebuffer.zbuffer@[idx] == nxt.1);
                            } else {
                                assert(before.buffer@[idx] == prv.0 && before.zbuffer@[idx]
                                    == prv.1);
                                if fragment.depth < prv.1 {
                                    assert(framebuffer.buffer@[idx] == color
                                        && framebuffer.zbuffer@[idx] == fragment.depth);
                                    assert(nxt == (
                                        submit_color_s(
                                            us,
                                            vsq,
                                            current_shader,
                                            t as int,
                                            qx,
                                            qy,
                                        ),
                                        submit_depth_s(us, vsq, t as int, qx, qy),
                                    ));
                                } else {
                                    assert(framebuffer.buffer@[idx] == prv.0
                                        && framebuffer.zbuffer@[idx] == prv.1);
                                    assert(nxt == prv);
                                }
                            }
                        } else {
                            assert(idx != idx0) by {
                                if idx == idx0 {
                                    lemma_row_major_unique(w0, qx, qy, x as int, y as int);
                                }
                            }
                            assert(framebuffer.buffer@[idx] == before.buffer@[idx]
                                && framebuffer.zbuffer@[idx] == before.zbuffer@[idx]);
                            lemma_processed_step(frq, fi as int, qx, qy);
                        }
                    }
                }
            } else {
                proof {
                    assert forall|qx: int, qy: int|
                        0 <= qx < w0 && 0 <= qy < h0 implies {
                        let stage: int = if processed_s(frq, fi as int + 1, qx, qy) {
                            t as int + 1
                        } else {
                            t as int
                        };
                        let pr = pixel_after_s(
                            us,
                            vsq,
                            current_shader,
                            w0,
                            h0,
                            fb0.buffer@,
                            fb0.zbuffer@,
                            qx,
                            qy,
                            stage,
                        );
                        framebuffer.buffer@[#[trigger] pix_idx_s(w0, qx, qy)] == pr.0
                            && framebuffer.zbuffer@[pix_idx_s(w0, qx, qy)] == pr.1
                    } by {
                        assert(!(frq[fi as int].x == qx && frq[fi as int].y == qy));
                        lemma_processed_step(frq, fi as int, qx, qy);
                    }
                }
            }
            fi = fi + 1;
        }
        proof {
            assert forall|x: int, y: int|
                0 <= x < w0 && 0 <= y < h0 implies {
                let pr = pixel_after_s(
                    us,
                    vsq,
                    current_shader,
                    w0,
                    h0,
                    fb0.buffer@,
                    fb0.zbuffer@,
                    x,
                    y,
                    t as int + 1,
                );
                framebuffer.buffer@[#[trigger] pix_idx_s(w0, x, y)] == pr.0
                    && framebuffer.zbuffer@[pix_idx_s(w0, x, y)] == pr.1
            } by {
                if !processed_s(frq, frq.len() as int, x, y) {
                    if submits_s(us, vsq, t as int, w0, h0, x, y) {
                        assert(crate::triangle::covered_s(va, vb, vc, x, y));
                        assert(crate::triangle::emits_pixel_s(frq, x, y));
                        let j = choose|j: int|
                            0 <= j < frq.len() && (#[trigger] frq[j]).x == x && frq[j].y == y;
                        assert(processed_s(frq, frq.len() as int, x, y));
                    }
                    assert(pixel_after_s(
                        us,
                        vsq,
                        current_shader,
                        w0,
                        h0,
                        fb0.buffer@,
                        fb0.zbuffer@,
                        x,
                        y,
                        t as int + 1,
                    ) == pixel_after_s(
                        us,
                        vsq,
                        current_shader,
                        w0,
                        h0,
                        fb0.buffer@,
                        fb0.zbuffer@,
                        x,
                        y,
                        t as int,
                    ));
                }
            }
        }
        t = t + 1;
    }
}

/// The texture pixel index backing framebuffer pixel (x, y): nearest
/// scaling of the framebuffer coordinate into the texture grid.
pub open spec fn tex_index_s(tex: Texture, fb_w: int, fb_h: int, x: int, y: int) -> int {
    (y * tex.height / fb_h) * tex.width + x * tex.width / fb_w
}

/// Row-major pixel index.
pub open spec fn pix_idx_s(w: int, x: int, y: int) -> int {
    y * w + x
}

proof fn lemma_row_major_unique(w: int, x1: int, y1: int, x2: int, y2: int)
    requires
        0 <= x1 < w,
        0 <= x2 < w,
        pix_idx_s(w, x1, y1) == pix_idx_s(w, x2, y2),
    ensures
        x1 == x2 && y1 == y2,
{
    assert(x1 == x2 && y1 == y2) by (nonlinear_arith)
        requires
            0 <= x1 < w,
            0 <= x2 < w,
            y1 * w + x1 == y2 * w + x2,
    ;
}

proof fn lemma_tex_index_bounds(tex: Texture, fb_w: int, fb_h: int, x: int, y: int)
    requires
        tex.wf(),
        tex.width >= 1,
        tex.height >= 1,
        0 <= x < fb_w,
        0 <= y < fb_h,
    ensures
        0 <= x * tex.width / fb_w < tex.width,
        0 <= y * tex.height / fb_h < tex.height,
        0 <= tex_index_s(tex, fb_w, fb_h, x, y) < tex.width * tex.height,
{
    let tw = tex.width as int;
    let th = tex.height as int;
    assert(x * tw >= 0 && x * tw < fb_w * tw) by (nonlinear_arith)
        requires
            0 <= x < fb_w,
            tw >= 1,
    ;
    assert(y * th >= 0 && y * th < fb_h * th) by (nonlinear_arith)
        requires
            0 <= y < fb_h,
            th >= 1,
    ;
    vstd::arithmetic::div_mod::lemma_multiply_divide_lt(x * tw, fb_w, tw);
    vstd::arithmetic::div_mod::lemma_multiply_divide_lt(y * th, fb_h, th);
    vstd::arithmetic::div_mod::lemma_div_is_ordered(0, x * tw, fb_w);
    vstd::arithmetic::div_mod::lemma_div_is_ordered(0, y * th, fb_h);
    crate::framebuffer::lemma_row_major_index(tw, th, x * tw / fb_w, y * th / fb_h);
    assert(th * tw == tw * th) by (nonlinear_arith);
}

/// Blit the background texture over the whole framebuffer at the farthest
/// real depth (one): each pixel takes the nearest-scaled texture pixel
/// wherever its stored depth is still beyond one, through the same
/// depth-tested write as every other draw.
#[verifier::rlimit(100)]
pub fn render_background(framebuffer: &mut Framebuffer, texture: &Texture)
    requires
        old(framebuffer).wf(),
        texture.wf(),
        texture.width >= 1,
        texture.height >= 1,
        old(framebuffer).width * texture.width <= usize::MAX,
        old(framebuffer).height * texture.height <= usize::MAX,
    ensures
        final(framebuffer).wf(),
        final(framebuffer).width == old(framebuffer).width,
        final(framebuffer).height == old(framebuffer).height,
        forall|xx: int, yy: int|
            0 <= xx < old(framebuffer).width && 0 <= yy < old(framebuffer).height ==> {
                let idx = #[trigger] pix_idx_s(old(framebuffer).width as int, xx, yy);
                if old(framebuffer).zbuffer@[idx] > FX_ONE {
                    final(framebuffer).buffer@[idx] == texture.pixels@[tex_index_s(
                        *texture,
                        old(framebuffer).width as int,
                        old(framebuffer).height as int,
                        xx,
                        yy,
                    )] && final(framebuffer).zbuffer@[idx] == FX_ONE
                } else {
                    final(framebuffer).buffer@[idx] == old(framebuffer).buffer@[idx]
                        && final(framebuffer).zbuffer@[idx] == old(framebuffer).zbuffer@[idx]
                }
            },
{
    let ghost fb0 = *old(framebuffer);
    let w: usize = framebuffer.width;
    let h: usize = framebuffer.height;
    let tw: usize = texture.width;
    let th: usize = texture.height;
    let mut y: usize = 0;
    while y < h
        invariant
            y <= h,
            framebuffer.wf(),
            framebuffer.width == w,
            framebuffer.height == h,
            fb0.width == w,
            fb0.height == h,
            fb0.wf(),
            texture.wf(),
            tw == texture.width,
            th == texture.height,
            tw >= 1,
            th >= 1,
            w * tw <= usize::MAX,
            h * th <= usize::MAX,
            forall|xx: int, yy: int|
                0 <= xx < w && 0 <= yy < h ==> {
                    let idx = #[trigger] pix_idx_s(w as int, xx, yy);
                    if yy < y {
                        if fb0.zbuffer@[idx] > FX_ONE {
                            framebuffer.buffer@[idx] == texture.pixels@[tex_index_s(
                                *texture,
                                w as int,
                                h as int,
                                xx,
                                yy,
                            )] && framebuffer.zbuffer@[idx] == FX_ONE
                        } else {
                            framebuffer.buffer@[idx] == fb0.buffer@[idx]
                                && framebuffer.zbuffer@[idx] == fb0.zbuffer@[idx]
                        }
                    } else {
                        framebuffer.buffer@[idx] == fb0.buffer@[idx] && framebuffer.zbuffer@[idx]
                            == fb0.zbuffer@[idx]
                    }
                },
        decreases h - y,
    {
        let mut x: usize = 0;
        while x < w
            invariant
                x <= w,
                y < h,
                framebuffer.wf(),
                framebuffer.width == w,
                framebuffer.height == h,
                fb0.width == w,
                fb0.height == h,
                fb0.wf(),
                texture.wf(),
                tw == texture.width,
                th == texture.height,
                tw >= 1,
                th >= 1,
                w * tw <= usize::MAX,
                h * th <= usize::MAX,
                forall|xx: int, yy: int|
                    0 <= xx < w && 0 <= yy < h ==> {
                        let idx = #[trigger] pix_idx_s(w as int, xx, yy);
                        if yy < y || (yy == y && xx < x) {
                            if fb0.zbuffer@[idx] > FX_ONE {
                                framebuffer.buffer@[idx] == texture.pixels@[tex_index_s(
                                    *texture,
                                    w as int,
                                    h as int,
                                    xx,
                                    yy,
                                )] && framebuffer.zbuffer@[idx] == FX_ONE
                            } else {
                                framebuffer.buffer@[idx] == fb0.buffer@[idx]
                                    && framebuffer.zbuffer@[idx] == fb0.zbuffer@[idx]
                            }
                        } else {
                            framebuffer.buffer@[idx] == fb0.buffer@[idx]
                                && framebuffer.zbuffer@[idx] == fb0.zbuffer@[idx]
                        }
                    },
            decreases w - x,
        {
            proof {
                assert(x * tw < w * tw) by (nonlinear_arith)
                    requires
                        0 <= x < w,
                        tw >= 1,
                ;
                assert(y * th < h * th) by (nonlinear_arith)
                    requires
                        0 <= y < h,
                        th >= 1,
                ;
                lemma_tex_index_bounds(*texture, w as int, h as int, x as int, y as int);
                crate::framebuffer::lemma_row_major_index(
                    texture.width as int,
                    texture.height as int,
                    x as int * tw / (w as int),
                    y as int * th / (h as int),
                );
                assert(texture.height * texture.width == texture.width * texture.height)
                    by (nonlinear_arith);
            }
            let tx: usize = x * tw / w;
            let ty: usize = y * th / h;
            let ti: usize = ty * tw + tx;
            let color: u32 = texture.pixels[ti];
            framebuffer.set_current_color(color);
            let ghost before = *framebuffer;
            framebuffer.point(x, y, FX_ONE);
            proof {
                crate::framebuffer::lemma_row_major_index(w as int, h as int, x as int, y as int);
                let idx0 = pix_idx_s(w as int, x as int, y as int);
                assert forall|xx: int, yy: int| 0 <= xx < w && 0 <= yy < h implies {
                    let idx = #[trigger] pix_idx_s(w as int, xx, yy);
                    if yy < y || (yy == y && xx < x + 1) {
                        if fb0.zbuffer@[idx] > FX_ONE {
                            framebuffer.buffer@[idx] == texture.pixels@[tex_index_s(
                                *texture,
                                w as int,
                                h as int,
                                xx,
                                yy,
                            )] && framebuffer.zbuffer@[idx] == FX_ONE
                        } else {
                            framebuffer.buffer@[idx] == fb0.buffer@[idx]
                                && framebuffer.zbuffer@[idx] == fb0.zbuffer@[idx]
                        }
                    } else {
                        framebuffer.buffer@[idx] == fb0.buffer@[idx] && framebuffer.zbuffer@[idx]
                            == fb0.zbuffer@[idx]
                    }
                } by {
                    let idx = pix_idx_s(w as int, xx, yy);
                    crate::framebuffer::lemma_row_major_index(w as int, h as int, xx, yy);
                    if idx == idx0 {
                        lemma_row_major_unique(w as int, xx, yy, x as int, y as int);
                    } else {
                        assert(framebuffer.buffer@[idx] == before.buffer@[idx]);
                        assert(framebuffer.zbuffer@[idx] == before.zbuffer@[idx]);
                    }
                }
            }
            x = x + 1;
        }
        y = y + 1;
    }
}

} // verus!
