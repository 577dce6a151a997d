//! The triangle rasterizer: scan conversion of three transformed vertices
//! into fragments by the edge-function (signed area) method.
//!
//! Every pixel center inside the clamped bounding box is tested with three
//! edge functions; a pixel is covered exactly when all three weights share a
//! sign (zero included), so edges are included and degenerate triangles
//! produce nothing.  Attributes interpolate linearly in screen space by the
//! sign-normalized weights.  Screen coordinates clamp into a representable
//! raster range and attributes into a wider attribute range, so the whole
//! stage is total and every fragment is pinned to a specification function of
//! the three vertices and its pixel alone.

use vstd::prelude::*;
use crate::fixed::{
    abs_s, clamp_s, fx_clamp, fx_clamp01, fx_clamp01_s, sat_s, tdiv_i128, tdiv_s, FX_ONE,
};
use crate::fragment::Fragment;
use crate::geometry::{dot3, dot3_s, normalize, normalize_s, Fx3};
use crate::shaders::light_dir_s;
use crate::vertex::Vertex;

verus! {

/// Screen coordinates clamp into this range before scan conversion.
pub const RASTER_LIMIT: i64 = 0x1000000000;

/// Interpolated attributes clamp into this range.
pub const ATTR_LIMIT: i64 = 0x10000000000;

/// The edge function: twice the signed area of the triangle (a, b, p).
pub open spec fn edge_s(ax: int, ay: int, bx: int, by: int, px: int, py: int) -> int {
    (bx - ax) * (py - ay) - (by - ay) * (px - ax)
}

pub open spec fn rx_s(v: Vertex) -> int {
    clamp_s(v.transformed_position.x as int, -RASTER_LIMIT as int, RASTER_LIMIT as int)
}

pub open spec fn ry_s(v: Vertex) -> int {
    clamp_s(v.transformed_position.y as int, -RASTER_LIMIT as int, RASTER_LIMIT as int)
}

pub open spec fn attr_s(x: int) -> int {
    clamp_s(x, -ATTR_LIMIT as int, ATTR_LIMIT as int)
}

/// Twice the signed area of the (clamped) triangle.
pub open spec fn area2_s(v1: Vertex, v2: Vertex, v3: Vertex) -> int {
    edge_s(rx_s(v1), ry_s(v1), rx_s(v2), ry_s(v2), rx_s(v3), ry_s(v3))
}

/// The raw barycentric weights of pixel center (px, py).
pub open spec fn w0_s(v1: Vertex, v2: Vertex, v3: Vertex, px: int, py: int) -> int {
    edge_s(rx_s(v2), ry_s(v2), rx_s(v3), ry_s(v3), px * FX_ONE, py * FX_ONE)
}

pub open spec fn w1_s(v1: Vertex, v2: Vertex, v3: Vertex, px: int, py: int) -> int {
    edge_s(rx_s(v3), ry_s(v3), rx_s(v1), ry_s(v1), px * FX_ONE, py * FX_ONE)
}

pub open spec fn w2_s(v1: Vertex, v2: Vertex, v3: Vertex, px: int, py: int) -> int {
    edge_s(rx_s(v1), ry_s(v1), rx_s(v2), ry_s(v2), px * FX_ONE, py * FX_ONE)
}

/// A pixel is covered when the triangle is not degenerate and all three
/// weights share a sign (zero lies on an edge and is included).
pub open spec fn covered_s(v1: Vertex, v2: Vertex, v3: Vertex, px: int, py: int) -> bool {
    let w0 = w0_s(v1, v2, v3, px, py);
    let w1 = w1_s(v1, v2, v3, px, py);
    let w2 = w2_s(v1, v2, v3, px, py);
    area2_s(v1, v2, v3) != 0 && ((w0 >= 0 && w1 >= 0 && w2 >= 0) || (w0 <= 0 && w1 <= 0 && w2
        <= 0))
}

/// The three raw barycentric weights of any sample point sum exactly to twice
/// the triangle's signed area, and at a covered pixel the sign-normalized
/// weights are each non-negative and still sum to the (doubled) absolute
/// area.
#[verifier::rlimit(100)]
pub proof fn lemma_barycentric_sum(v1: Vertex, v2: Vertex, v3: Vertex, px: int, py: int)
    ensures
        w0_s(v1, v2, v3, px, py) + w1_s(v1, v2, v3, px, py) + w2_s(v1, v2, v3, px, py) == area2_s(
            v1,
            v2,
            v3,
        ),
        covered_s(v1, v2, v3, px, py) ==> {
            let a = area2_s(v1, v2, v3);
            let n0 = if a < 0 { -w0_s(v1, v2, v3, px, py) } else { w0_s(v1, v2, v3, px, py) };
            let n1 = if a < 0 { -w1_s(v1, v2, v3, px, py) } else { w1_s(v1, v2, v3, px, py) };
            let n2 = if a < 0 { -w2_s(v1, v2, v3, px, py) } else { w2_s(v1, v2, v3, px, py) };
            n0 >= 0 && n1 >= 0 && n2 >= 0 && n0 + n1 + n2 == abs_s(a)
        },
{
    let ax = rx_s(v1);
    let ay = ry_s(v1);
    let bx = rx_s(v2);
    let by = ry_s(v2);
    let cx = rx_s(v3);
    let cy = ry_s(v3);
    let sx = px * FX_ONE;
    let sy = py * FX_ONE;
    let ux = bx - ax;
    let uy = by - ay;
    let vx = cx - ax;
    let vy = cy - ay;
    let wx = sx - ax;
    let wy = sy - ay;
    assert((vx - ux) * (wy - uy) - (vy - uy) * (wx - ux) + (vy * wx - vx * wy) + (ux * wy - uy
        * wx) == ux * vy - uy * vx) by (nonlinear_arith);
    assert(edge_s(bx, by, cx, cy, sx, sy) == (vx - ux) * (wy - uy) - (vy - uy) * (wx - ux))
        by (nonlinear_arith)
        requires
            ux == bx - ax && uy == by - ay && vx == cx - ax && vy == cy - ay && wx == sx - ax
                && wy == sy - ay,
    ;
    assert(edge_s(cx, cy, ax, ay, sx, sy) == vy * wx - vx * wy) by (nonlinear_arith)
        requires
            vx == cx - ax && vy == cy - ay && wx == sx - ax && wy == sy - ay,
    ;
    assert(edge_s(ax, ay, bx, by, sx, sy) == ux * wy - uy * wx) by (nonlinear_arith)
        requires
            ux == bx - ax && uy == by - ay && wx == sx - ax && wy == sy - ay,
    ;
    assert(edge_s(ax, ay, bx, by, cx, cy) == ux * vy - uy * vx) by (nonlinear_arith)
        requires
            ux == bx - ax && uy == by - ay && vx == cx - ax && vy == cy - ay,
    ;
    if covered_s(v1, v2, v3, px, py) {
        let a = area2_s(v1, v2, v3);
        let w0 = w0_s(v1, v2, v3, px, py);
        let w1 = w1_s(v1, v2, v3, px, py);
        let w2 = w2_s(v1, v2, v3, px, py);
        if a < 0 {
            assert(!(w0 >= 0 && w1 >= 0 && w2 >= 0)) by {
                assert(w0 + w1 + w2 == a);
            }
        }
    }
}

/// Some fragment of the sequence sits at pixel (px, py).
pub open spec fn emits_pixel_s(r: Seq<Fragment>, px: int, py: int) -> bool {
    exists|i: int| 0 <= i < r.len() && (#[trigger] r[i]).x == px && r[i].y == py
}

proof fn lemma_emits_push(r: Seq<Fragment>, f: Fragment, px: int, py: int)
    requires
        emits_pixel_s(r, px, py),
    ensures
        emits_pixel_s(r.push(f), px, py),
{
    let i = choose|i: int| 0 <= i < r.len() && (#[trigger] r[i]).x == px && r[i].y == py;
    assert(r.push(f)[i].x == px && r.push(f)[i].y == py);
}

/// Linear interpolation of one attribute by non-negative weights over a
/// positive area, saturated into the scalar range.
pub open spec fn interp_s(t0: int, t1: int, t2: int, area: int, q1: int, q2: int, q3: int) -> int {
    sat_s(tdiv_s(t0 * q1 + t1 * q2 + t2 * q3, area))
}

/// The fragment a covered pixel produces: weights normalized to the positive
/// orientation, every attribute interpolated by them, the light intensity the
/// clamped response of the renormalized normal to the fixed light direction.
#[verifier::opaque]
pub open spec fn frag_s(v1: Vertex, v2: Vertex, v3: Vertex, px: int, py: int) -> Fragment {
    let a = area2_s(v1, v2, v3);
    let t0 = if a < 0 { -w0_s(v1, v2, v3, px, py) } else { w0_s(v1, v2, v3, px, py) };
    let t1 = if a < 0 { -w1_s(v1, v2, v3, px, py) } else { w1_s(v1, v2, v3, px, py) };
    let t2 = if a < 0 { -w2_s(v1, v2, v3, px, py) } else { w2_s(v1, v2, v3, px, py) };
    let ar = abs_s(a);
    let depth = interp_s(
        t0, t1, t2, ar,
        attr_s(v1.transformed_position.z as int),
        attr_s(v2.transformed_position.z as int),
        attr_s(v3.transformed_position.z as int),
    );
    let normal = Fx3 {
        x: interp_s(
            t0, t1, t2, ar,
            attr_s(v1.transformed_normal.x as int),
            attr_s(v2.transformed_normal.x as int),
            attr_s(v3.transformed_normal.x as int),
        ) as i64,
        y: interp_s(
            t0, t1, t2, ar,
            attr_s(v1.transformed_normal.y as int),
            attr_s(v2.transformed_normal.y as int),
            attr_s(v3.transformed_normal.y as int),
        ) as i64,
        z: interp_s(
            t0, t1, t2, ar,
            attr_s(v1.transformed_normal.z as int),
            attr_s(v2.transformed_normal.z as int),
            attr_s(v3.transformed_normal.z as int),
        ) as i64,
    };
    let vertex_position = Fx3 {
        x: interp_s(
            t0, t1, t2, ar,
            attr_s(v1.position.x as int),
            attr_s(v2.position.x as int),
            attr_s(v3.position.x as int),
        ) as i64,
        y: interp_s(
            t0, t1, t2, ar,
            attr_s(v1.position.y as int),
            attr_s(v2.position.y as int),
            attr_s(v3.position.y as int),
        ) as i64,
        z: interp_s(
            t0, t1, t2, ar,
            attr_s(v1.position.z as int),
            attr_s(v2.position.z as int),
            attr_s(v3.position.z as int),
        ) as i64,
    };
    let intensity = fx_clamp01_s(dot3_s(normalize_s(normal), light_dir_s()));
    Fragment {
        x: px as usize,
        y: py as usize,
        depth: depth as i64,
        normal,
        vertex_position,
        intensity: intensity as i64,
    }
}

/// The clamped bounding box, in pixels; the minima clamp at zero.
pub open spec fn min3_s(a: int, b: int, c: int) -> int {
    if a <= b && a <= c {
        a
    } else if b <= c {
        b
    } else {
        c
    }
}

pub open spec fn max3_s(a: int, b: int, c: int) -> int {
    if a >= b && a >= c {
        a
    } else if b >= c {
        b
    } else {
        c
    }
}

pub open spec fn bbox_min_x_s(v1: Vertex, v2: Vertex, v3: Vertex) -> int {
    let m = min3_s(rx_s(v1), rx_s(v2), rx_s(v3)) / (FX_ONE as int);
    if m < 0 {
        0
    } else {
        m
    }
}

pub open spec fn bbox_min_y_s(v1: Vertex, v2: Vertex, v3: Vertex) -> int {
    let m = min3_s(ry_s(v1), ry_s(v2), ry_s(v3)) / (FX_ONE as int);
    if m < 0 {
        0
    } else {
        m
    }
}

pub open spec fn bbox_max_x_s(v1: Vertex, v2: Vertex, v3: Vertex) -> int {
    (max3_s(rx_s(v1), rx_s(v2), rx_s(v3)) + FX_ONE - 1) / (FX_ONE as int)
}

pub open spec fn bbox_max_y_s(v1: Vertex, v2: Vertex, v3: Vertex) -> int {
    (max3_s(ry_s(v1), ry_s(v2), ry_s(v3)) + FX_ONE - 1) / (FX_ONE as int)
}

fn min3(a: i64, b: i64, c: i64) -> (r: i64)
    ensures
        r == min3_s(a as int, b as int, c as int),
{
    if a <= b && a <= c {
        a
    } else if b <= c {
        b
    } else {
        c
    }
}

fn max3(a: i64, b: i64, c: i64) -> (r: i64)
    ensures
        r == max3_s(a as int, b as int, c as int),
{
    if a >= b && a >= c {
        a
    } else if b >= c {
        b
    } else {
        c
    }
}

fn edge_fn(ax: i64, ay: i64, bx: i64, by: i64, px: i64, py: i64) -> (r: i128)
    requires
        -0x2000000000 <= ax <= 0x2000000000,
        -0x2000000000 <= ay <= 0x2000000000,
        -0x2000000000 <= bx <= 0x2000000000,
        -0x2000000000 <= by <= 0x2000000000,
        -0x2000000000 <= px <= 0x2000000000,
        -0x2000000000 <= py <= 0x2000000000,
    ensures
        r == edge_s(ax as int, ay as int, bx as int, by as int, px as int, py as int),
        -0x100000000000000000000 <= r <= 0x100000000000000000000,
{
    let dx: i64 = bx - ax;
    let dy: i64 = by - ay;
    let ex: i64 = px - ax;
    let ey: i64 = py - ay;
    proof {
        assert(-0x40000000000000000000 <= dx as int * ey as int <= 0x40000000000000000000
            && -0x40000000000000000000 <= dy as int * ex as int <= 0x40000000000000000000)
            by (nonlinear_arith)
            requires
                -0x4000000000 <= dx <= 0x4000000000,
                -0x4000000000 <= dy <= 0x4000000000,
                -0x4000000000 <= ex <= 0x4000000000,
                -0x4000000000 <= ey <= 0x4000000000,
        ;
    }
    (dx as i128) * (ey as i128) - (dy as i128) * (ex as i128)
}

fn interp(t0: i128, t1: i128, t2: i128, area: i128, q1: i64, q2: i64, q3: i64) -> (r: i64)
    requires
        area > 0,
        -0x200000000000000000000 <= t0 <= 0x200000000000000000000,
        -0x200000000000000000000 <= t1 <= 0x200000000000000000000,
        -0x200000000000000000000 <= t2 <= 0x200000000000000000000,
        -ATTR_LIMIT <= q1 <= ATTR_LIMIT,
        -ATTR_LIMIT <= q2 <= ATTR_LIMIT,
        -ATTR_LIMIT <= q3 <= ATTR_LIMIT,
    ensures
        r == interp_s(t0 as int, t1 as int, t2 as int, area as int, q1 as int, q2 as int, q3 as int),
{
    proof {
        assert(-0x2000000000000000000000000000000 <= t0 as int * q1 as int
            <= 0x2000000000000000000000000000000 && -0x2000000000000000000000000000000
            <= t1 as int * q2 as int <= 0x2000000000000000000000000000000
            && -0x2000000000000000000000000000000 <= t2 as int * q3 as int
            <= 0x2000000000000000000000000000000) by (nonlinear_arith)
            requires
                -0x200000000000000000000 <= t0 <= 0x200000000000000000000,
                -0x200000000000000000000 <= t1 <= 0x200000000000000000000,
                -0x200000000000000000000 <= t2 <= 0x200000000000000000000,
                -0x10000000000 <= q1 <= 0x10000000000,
                -0x10000000000 <= q2 <= 0x10000000000,
                -0x10000000000 <= q3 <= 0x10000000000,
        ;
    }
    let sum: i128 = t0 * (q1 as i128) + t1 * (q2 as i128) + t2 * (q3 as i128);
    let d: i128 = tdiv_i128(sum, area);
    crate::fixed::sat_from_i128(d)
}

/// Rasterize one triangle: one fragment per covered pixel center in the
/// clamped bounding box, each pinned to `frag_s` at its pixel; a degenerate
/// triangle produces no fragments.
pub fn triangle(v1: &Vertex, v2: &Vertex, v3: &Vertex) -> (r: Vec<Fragment>)
    ensures
        forall|i: int|
            0 <= i < r@.len() ==> {
                let f = #[trigger] r@[i];
                &&& f.wf()
                &&& covered_s(*v1, *v2, *v3, f.x as int, f.y as int)
                &&& f == frag_s(*v1, *v2, *v3, f.x as int, f.y as int)
                &&& bbox_min_x_s(*v1, *v2, *v3) <= f.x <= bbox_max_x_s(*v1, *v2, *v3)
                &&& bbox_min_y_s(*v1, *v2, *v3) <= f.y <= bbox_max_y_s(*v1, *v2, *v3)
            },
        area2_s(*v1, *v2, *v3) == 0 ==> r@.len() == 0,
        forall|px: int, py: int|
            #![trigger covered_s(*v1, *v2, *v3, px, py)]
            bbox_min_x_s(*v1, *v2, *v3) <= px <= bbox_max_x_s(*v1, *v2, *v3) && bbox_min_y_s(
                *v1,
                *v2,
                *v3,
            ) <= py <= bbox_max_y_s(*v1, *v2, *v3) && covered_s(*v1, *v2, *v3, px, py)
                ==> emits_pixel_s(r@, px, py),
{
    let mut fragments: Vec<Fragment> = Vec::new();
    let ax: i64 = fx_clamp(v1.transformed_position.x, -RASTER_LIMIT, RASTER_LIMIT);
    let ay: i64 = fx_clamp(v1.transformed_position.y, -RASTER_LIMIT, RASTER_LIMIT);
    let bx: i64 = fx_clamp(v2.transformed_position.x, -RASTER_LIMIT, RASTER_LIMIT);
    let by: i64 = fx_clamp(v2.transformed_position.y, -RASTER_LIMIT, RASTER_LIMIT);
    let cx: i64 = fx_clamp(v3.transformed_position.x, -RASTER_LIMIT, RASTER_LIMIT);
    let cy: i64 = fx_clamp(v3.transformed_position.y, -RASTER_LIMIT, RASTER_LIMIT);
    let area2: i128 = edge_fn(ax, ay, bx, by, cx, cy);
    if area2 == 0 {
        return fragments;
    }
    let z1: i64 = fx_clamp(v1.transformed_position.z, -ATTR_LIMIT, ATTR_LIMIT);
    let z2: i64 = fx_clamp(v2.transformed_position.z, -ATTR_LIMIT, ATTR_LIMIT);
    let z3: i64 = fx_clamp(v3.transformed_position.z, -ATTR_LIMIT, ATTR_LIMIT);
    let n1x: i64 = fx_clamp(v1.transformed_normal.x, -ATTR_LIMIT, ATTR_LIMIT);
    let n1y: i64 = fx_clamp(v1.transformed_normal.y, -ATTR_LIMIT, ATTR_LIMIT);
    let n1z: i64 = fx_clamp(v1.transformed_normal.z, -ATTR_LIMIT, ATTR_LIMIT);
    let n2x: i64 = fx_clamp(v2.transformed_normal.x, -ATTR_LIMIT, ATTR_LIMIT);
    let n2y: i64 = fx_clamp(v2.transformed_normal.y, -ATTR_LIMIT, ATTR_LIMIT);
    let n2z: i64 = fx_clamp(v2.transformed_normal.z, -ATTR_LIMIT, ATTR_LIMIT);
    let n3x: i64 = fx_clamp(v3.transformed_normal.x, -ATTR_LIMIT, ATTR_LIMIT);
    let n3y: i64 = fx_clamp(v3.transformed_normal.y, -ATTR_LIMIT, ATTR_LIMIT);
    let n3z: i64 = fx_clamp(v3.transformed_normal.z, -ATTR_LIMIT, ATTR_LIMIT);
    let p1x: i64 = fx_clamp(v1.position.x, -ATTR_LIMIT, ATTR_LIMIT);
    let p1y: i64 = fx_clamp(v1.position.y, -ATTR_LIMIT, ATTR_LIMIT);
    let p1z: i64 = fx_clamp(v1.position.z, -ATTR_LIMIT, ATTR_LIMIT);
    let p2x: i64 = fx_clamp(v2.position.x, -ATTR_LIMIT, ATTR_LIMIT);
    let p2y: i64 = fx_clamp(v2.position.y, -ATTR_LIMIT, ATTR_LIMIT);
    let p2z: i64 = fx_clamp(v2.position.z, -ATTR_LIMIT, ATTR_LIMIT);
    let p3x: i64 = fx_clamp(v3.position.x, -ATTR_LIMIT, ATTR_LIMIT);
    let p3y: i64 = fx_clamp(v3.position.y, -ATTR_LIMIT, ATTR_LIMIT);
    let p3z: i64 = fx_clamp(v3.position.z, -ATTR_LIMIT, ATTR_LIMIT);
    let min_xq = crate::fixed::fx_floor_parts(min3(ax, bx, cx));
    let min_yq = crate::fixed::fx_floor_parts(min3(ay, by, cy));
    let max_xq = crate::fixed::fx_floor_parts(max3(ax, bx, cx) + (FX_ONE - 1));
    let max_yq = crate::fixed::fx_floor_parts(max3(ay, by, cy) + (FX_ONE - 1));
    let min_px: i64 = if min_xq.0 < 0 {
        0
    } else {
        min_xq.0
    };
    let min_py: i64 = if min_yq.0 < 0 {
        0
    } else {
        min_yq.0
    };
    let max_px: i64 = max_xq.0;
    let max_py: i64 = max_yq.0;
    let mut py: i64 = min_py;
    while py <= max_py
        invariant
            min_py <= py <= max_py + 1 || py == min_py,
            area2 == area2_s(*v1, *v2, *v3),
            area2 != 0,
            -0x100000000000000000000 <= area2 <= 0x100000000000000000000,
            ax == rx_s(*v1) && ay == ry_s(*v1),
            bx == rx_s(*v2) && by == ry_s(*v2),
            cx == rx_s(*v3) && cy == ry_s(*v3),
            z1 == attr_s(v1.transformed_position.z as int),
            z2 == attr_s(v2.transformed_position.z as int),
            z3 == attr_s(v3.transformed_position.z as int),
            n1x == attr_s(v1.transformed_normal.x as int),
            n1y == attr_s(v1.transformed_normal.y as int),
            n1z == attr_s(v1.transformed_normal.z as int),
            n2x == attr_s(v2.transformed_normal.x as int),
            n2y == attr_s(v2.transformed_normal.y as int),
            n2z == attr_s(v2.transformed_normal.z as int),
            n3x == attr_s(v3.transformed_normal.x as int),
            n3y == attr_s(v3.transformed_normal.y as int),
            n3z == attr_s(v3.transformed_normal.z as int),
            p1x == attr_s(v1.position.x as int),
            p1y == attr_s(v1.position.y as int),
            p1z == attr_s(v1.position.z as int),
            p2x == attr_s(v2.position.x as int),
            p2y == attr_s(v2.position.y as int),
            p2z == attr_s(v2.position.z as int),
            p3x == attr_s(v3.position.x as int),
            p3y == attr_s(v3.position.y as int),
            p3z == attr_s(v3.position.z as int),
            min_px == bbox_min_x_s(*v1, *v2, *v3),
            min_py == bbox_min_y_s(*v1, *v2, *v3),
            max_px == bbox_max_x_s(*v1, *v2, *v3),
            max_py == bbox_max_y_s(*v1, *v2, *v3),
            0 <= min_px <= 0x1000001,
            0 <= min_py <= 0x1000001,
            -0x1000002 <= max_px <= 0x1000001,
            -0x1000002 <= max_py <= 0x1000001,
            forall|i: int|
                0 <= i < fragments@.len() ==> {
                    let f = #[trigger] fragments@[i];
                    &&& f.wf()
                    &&& covered_s(*v1, *v2, *v3, f.x as int, f.y as int)
                    &&& f == frag_s(*v1, *v2, *v3, f.x as int, f.y as int)
                    &&& bbox_min_x_s(*v1, *v2, *v3) <= f.x <= bbox_max_x_s(*v1, *v2, *v3)
                    &&& bbox_min_y_s(*v1, *v2, *v3) <= f.y <= bbox_max_y_s(*v1, *v2, *v3)
                },
            forall|qx: int, qy: int|
                #![trigger covered_s(*v1, *v2, *v3, qx, qy)]
                min_px <= qx <= max_px && min_py <= qy < py && covered_s(*v1, *v2, *v3, qx, qy)
                    ==> emits_pixel_s(fragments@, qx, qy),
        decreases max_py - py + 1,
    {
        let mut px: i64 = min_px;
        while px <= max_px
            invariant
                min_px <= px <= max_px + 1 || px == min_px,
                min_py <= py <= max_py,
                area2 == area2_s(*v1, *v2, *v3),
                area2 != 0,
                -0x100000000000000000000 <= area2 <= 0x100000000000000000000,
                ax == rx_s(*v1) && ay == ry_s(*v1),
                bx == rx_s(*v2) && by == ry_s(*v2),
                cx == rx_s(*v3) && cy == ry_s(*v3),
                z1 == attr_s(v1.transformed_position.z as int),
                z2 == attr_s(v2.transformed_position.z as int),
                z3 == attr_s(v3.transformed_position.z as int),
                n1x == attr_s(v1.transformed_normal.x as int),
                n1y == attr_s(v1.transformed_normal.y as int),
                n1z == attr_s(v1.transformed_normal.z as int),
                n2x == attr_s(v2.transformed_normal.x as int),
                n2y == attr_s(v2.transformed_normal.y as int),
                n2z == attr_s(v2.transformed_normal.z as int),
                n3x == attr_s(v3.transformed_normal.x as int),
                n3y == attr_s(v3.transformed_normal.y as int),
                n3z == attr_s(v3.transformed_normal.z as int),
                p1x == attr_s(v1.position.x as int),
                p1y == attr_s(v1.position.y as int),
                p1z == attr_s(v1.position.z as int),
                p2x == attr_s(v2.position.x as int),
                p2y == attr_s(v2.position.y as int),
                p2z == attr_s(v2.position.z as int),
                p3x == attr_s(v3.position.x as int),
                p3y == attr_s(v3.position.y as int),
                p3z == attr_s(v3.position.z as int),
                min_px == bbox_min_x_s(*v1, *v2, *v3),
                min_py == bbox_min_y_s(*v1, *v2, *v3),
                max_px == bbox_max_x_s(*v1, *v2, *v3),
                max_py == bbox_max_y_s(*v1, *v2, *v3),
                0 <= min_px <= 0x1000001,
                0 <= min_py <= 0x1000001,
                -0x1000002 <= max_px <= 0x1000001,
                -0x1000002 <= max_py <= 0x1000001,
                forall|i: int|
                    0 <= i < fragments@.len() ==> {
                        let f = #[trigger] fragments@[i];
                        &&& f.wf()
                        &&& covered_s(*v1, *v2, *v3, f.x as int, f.y as int)
                        &&& f == frag_s(*v1, *v2, *v3, f.x as int, f.y as int)
                        &&& bbox_min_x_s(*v1, *v2, *v3) <= f.x <= bbox_max_x_s(*v1, *v2, *v3)
                        &&& bbox_min_y_s(*v1, *v2, *v3) <= f.y <= bbox_max_y_s(*v1, *v2, *v3)
                    },
                forall|qx: int, qy: int|
                    #![trigger covered_s(*v1, *v2, *v3, qx, qy)]
                    min_px <= qx <= max_px && min_py <= qy <= py && (qy < py || qx < px)
                        && covered_s(*v1, *v2, *v3, qx, qy) ==> emits_pixel_s(
                        fragments@,
                        qx,
                        qy,
                    ),
            decreases max_px - px + 1,
        {
            let ghost fr0 = fragments@;
            let sx: i64 = px * FX_ONE;
            let sy: i64 = py * FX_ONE;
            let w0: i128 = edge_fn(bx, by, cx, cy, sx, sy);
            let w1: i128 = edge_fn(cx, cy, ax, ay, sx, sy);
            let w2: i128 = edge_fn(ax, ay, bx, by, sx, sy);
            let inside: bool = (w0 >= 0 && w1 >= 0 && w2 >= 0) || (w0 <= 0 && w1 <= 0 && w2 <= 0);
            if inside {
                let t0: i128 = if area2 < 0 {
                    -w0
                } else {
                    w0
                };
                let t1: i128 = if area2 < 0 {
                    -w1
                } else {
                    w1
                };
                let t2: i128 = if area2 < 0 {
                    -w2
                } else {
                    w2
                };
                let ar: i128 = if area2 < 0 {
                    -area2
                } else {
                    area2
                };
                let depth: i64 = interp(t0, t1, t2, ar, z1, z2, z3);
                let normal = Fx3 {
                    x: interp(t0, t1, t2, ar, n1x, n2x, n3x),
                    y: interp(t0, t1, t2, ar, n1y, n2y, n3y),
                    z: interp(t0, t1, t2, ar, n1z, n2z, n3z),
                };
                let vertex_position = Fx3 {
                    x: interp(t0, t1, t2, ar, p1x, p2x, p3x),
                    y: interp(t0, t1, t2, ar, p1y, p2y, p3y),
                    z: interp(t0, t1, t2, ar, p1z, p2z, p3z),
                };
                let nrm: Fx3 = normalize(&normal);
                let light_dir = Fx3 { x: 43690, y: 43690, z: 21845 };
                let intensity: i64 = fx_clamp01(dot3(&nrm, &light_dir));
                let frag = Fragment {
                    x: px as usize,
                    y: py as usize,
                    depth,
                    normal,
                    vertex_position,
                    intensity,
                };
                proof {
                    reveal(frag_s);
                    assert(frag == frag_s(*v1, *v2, *v3, px as int, py as int));
                    assert(covered_s(*v1, *v2, *v3, px as int, py as int));
                }
                fragments.push(frag);
                proof {
                    assert forall|qx: int, qy: int|
                        min_px <= qx <= max_px && min_py <= qy <= py && (qy < py || qx < px + 1)
                            && covered_s(*v1, *v2, *v3, qx, qy) implies emits_pixel_s(
                        fragments@,
                        qx,
                        qy,
                    ) by {
                        if qy == py as int && qx == px as int {
                            let last = fragments@.len() - 1;
                            assert(fragments@[last].x == px as usize && fragments@[last].y
                                == py as usize);
                        } else {
                            assert(emits_pixel_s(fr0, qx, qy));
                            lemma_emits_push(fr0, frag, qx, qy);
                        }
                    }
                }
            } else {
                proof {
                    assert forall|qx: int, qy: int|
                        min_px <= qx <= max_px && min_py <= qy <= py && (qy < py || qx < px + 1)
                            && covered_s(*v1, *v2, *v3, qx, qy) implies emits_pixel_s(
                        fragments@,
                        qx,
                        qy,
                    ) by {
                        if qy == py as int && qx == px as int {
                            assert(!covered_s(*v1, *v2, *v3, qx, qy));
                        } else {
                            assert(emits_pixel_s(fr0, qx, qy));
                        }
                    }
                }
            }
            px = px + 1;
        }
        py = py + 1;
    }
    fragments
}

} // verus!
