//! The procedural noise source consumed by the shading functions.
//!
//! A seeded lattice value-noise over fixed-point coordinates: every sample is
//! a pure function of the seed and the coordinates alone, repeatable across
//! calls, frames and machines, with values bounded in [-FX_ONE, FX_ONE].
//! Corner values come from a Lehmer-style integer hash of the lattice cell;
//! samples between corners blend with a smoothstep fade.

use vstd::prelude::*;
use crate::fixed::{fx_floor_parts, tdiv_s, FX_ONE};

verus! {

/// The modulus of the lattice hash (a Mersenne prime).
pub const HASH_MOD: u64 = 2147483647;

/// Offset making lattice cell coordinates non-negative before hashing.
pub const CELL_OFFSET: i64 = 0x4000000000000;

/// Largest lattice cell coordinate the hash accepts.
pub const CELL_LIMIT: i64 = 0x1000000000001;

#[derive(Clone, Copy, PartialEq, Eq, Structural, Debug)]
pub struct NoiseSource {
    pub seed: u64,
}

/// The hashed corner value of a 3D lattice cell, in [-FX_ONE, FX_ONE].
pub open spec fn cell_val_s(seed: u64, cx: int, cy: int, cz: int) -> int {
    let hx = (cx + CELL_OFFSET) % (HASH_MOD as int);
    let hy = (cy + CELL_OFFSET) % (HASH_MOD as int);
    let hz = (cz + CELL_OFFSET) % (HASH_MOD as int);
    let hs = (seed as int) % (HASH_MOD as int);
    let h0 = (hx * 73856093 + hy * 19349663 + hz * 83492791 + hs * 2654435761) % (HASH_MOD as int);
    let h1 = (h0 * 48271) % (HASH_MOD as int);
    let h2 = (h1 * 69621) % (HASH_MOD as int);
    h2 % 131073 - 65536
}

fn cell_val(seed: u64, cx: i64, cy: i64, cz: i64) -> (v: i64)
    requires
        -CELL_LIMIT <= cx <= CELL_LIMIT,
        -CELL_LIMIT <= cy <= CELL_LIMIT,
        -CELL_LIMIT <= cz <= CELL_LIMIT,
    ensures
        v == cell_val_s(seed, cx as int, cy as int, cz as int),
        -FX_ONE <= v <= FX_ONE,
{
    proof {
        assert((cx + CELL_OFFSET) as u64 as int == cx + CELL_OFFSET);
        assert((cy + CELL_OFFSET) as u64 as int == cy + CELL_OFFSET);
        assert((cz + CELL_OFFSET) as u64 as int == cz + CELL_OFFSET);
    }
    let hx: u64 = ((cx + CELL_OFFSET) as u64) % HASH_MOD;
    let hy: u64 = ((cy + CELL_OFFSET) as u64) % HASH_MOD;
    let hz: u64 = ((cz + CELL_OFFSET) as u64) % HASH_MOD;
    let hs: u64 = seed % HASH_MOD;
    let h0: u64 = (hx * 73856093 + hy * 19349663 + hz * 83492791 + hs * 2654435761) % HASH_MOD;
    let h1: u64 = (h0 * 48271) % HASH_MOD;
    let h2: u64 = (h1 * 69621) % HASH_MOD;
    let v: i64 = (h2 % 131073) as i64 - 65536;
    v
}

/// Smoothstep fade of a fractional offset: t*t*(3 - 2t) in fixed point,
/// mapping [0, FX_ONE) into [0, FX_ONE].
pub open spec fn fade_s(t: int) -> int {
    (t * t * (3 * FX_ONE - 2 * t)) / 0x100000000
}

fn fade(t: i64) -> (r: i64)
    requires
        0 <= t < FX_ONE,
    ensures
        r == fade_s(t as int),
        0 <= r <= FX_ONE,
{
    proof {
        assert(0 <= t as int * t as int <= 0x100000000 && 0 <= t as int * t as int * (3 * FX_ONE
            - 2 * t as int) <= 0x1000000000000) by (nonlinear_arith)
            requires
                0 <= t < 65536,
                FX_ONE == 65536,
        ;
    }
    let sq: i64 = t * t;
    let cub: i64 = sq * (3 * FX_ONE - 2 * t);
    let r: i64 = cub / 0x100000000;
    proof {
        assert(cub as int / 0x100000000 <= FX_ONE) by (nonlinear_arith)
            requires
                0 <= cub <= 0x1000000000000,
                FX_ONE == 65536,
        ;
    }
    r
}

/// Fixed-point linear interpolation between two bounded samples.
pub open spec fn mix_s(a: int, b: int, t: int) -> int {
    a + tdiv_s((b - a) * t, FX_ONE as int)
}

pub proof fn lemma_mix_range(a: int, b: int, t: int)
    requires
        -FX_ONE <= a <= FX_ONE,
        -FX_ONE <= b <= FX_ONE,
        0 <= t <= FX_ONE,
    ensures
        -FX_ONE <= mix_s(a, b, t) <= FX_ONE,
{
    let d = b - a;
    if d >= 0 {
        assert(d * t >= 0) by (nonlinear_arith)
            requires
                0 <= d,
                0 <= t,
        ;
        assert(0 <= (d * t) / (FX_ONE as int) <= d) by (nonlinear_arith)
            requires
                0 <= d,
                0 <= t <= FX_ONE,
                FX_ONE == 65536,
        ;
    } else {
        assert(d * t <= 0 && -(d * t) == (-d) * t) by (nonlinear_arith)
            requires
                d < 0,
                0 <= t,
        ;
        assert(0 <= ((-d) * t) / (FX_ONE as int) <= -d) by (nonlinear_arith)
            requires
                d < 0,
                0 <= t <= FX_ONE,
                FX_ONE == 65536,
        ;
    }
}

fn mix(a: i64, b: i64, t: i64) -> (r: i64)
    requires
        -FX_ONE <= a <= FX_ONE,
        -FX_ONE <= b <= FX_ONE,
        0 <= t <= FX_ONE,
    ensures
        r == mix_s(a as int, b as int, t as int),
        -FX_ONE <= r <= FX_ONE,
{
    let d: i64 = b - a;
    proof {
        assert(-0x20000 * 0x10000 <= d as int * t as int <= 0x20000 * 0x10000)
            by (nonlinear_arith)
            requires
                -0x20000 <= d <= 0x20000,
                0 <= t <= 0x10000,
        ;
    }
    let p: i64 = d * t;
    let step: i64 = if p >= 0 {
        p / FX_ONE
    } else {
        -((-p) / FX_ONE)
    };
    proof {
        lemma_mix_range(a as int, b as int, t as int);
        assert(step == tdiv_s((b - a) * (t as int), FX_ONE as int));
        assert(a + step == mix_s(a as int, b as int, t as int));
    }
    a + step
}

/// A 2D noise sample: the smooth blend of the four hashed corners of the
/// lattice cell containing (x, y).  z is fixed at lattice zero.
pub open spec fn noise2_s(seed: u64, x: int, y: int) -> int {
    let xq = x / (FX_ONE as int);
    let xr = x % (FX_ONE as int);
    let yq = y / (FX_ONE as int);
    let yr = y % (FX_ONE as int);
    let u = fade_s(xr);
    let w = fade_s(yr);
    mix_s(
        mix_s(cell_val_s(seed, xq, yq, 0), cell_val_s(seed, xq + 1, yq, 0), u),
        mix_s(cell_val_s(seed, xq, yq + 1, 0), cell_val_s(seed, xq + 1, yq + 1, 0), u),
        w,
    )
}

/// A 3D noise sample: the smooth blend of the eight hashed corners of the
/// lattice cell containing (x, y, z).
pub open spec fn noise3_s(seed: u64, x: int, y: int, z: int) -> int {
    let xq = x / (FX_ONE as int);
    let xr = x % (FX_ONE as int);
    let yq = y / (FX_ONE as int);
    let yr = y % (FX_ONE as int);
    let zq = z / (FX_ONE as int);
    let zr = z % (FX_ONE as int);
    let u = fade_s(xr);
    let w = fade_s(yr);
    let v = fade_s(zr);
    mix_s(
        mix_s(
            mix_s(cell_val_s(seed, xq, yq, zq), cell_val_s(seed, xq + 1, yq, zq), u),
            mix_s(cell_val_s(seed, xq, yq + 1, zq), cell_val_s(seed, xq + 1, yq + 1, zq), u),
            w,
        ),
        mix_s(
            mix_s(cell_val_s(seed, xq, yq, zq + 1), cell_val_s(seed, xq + 1, yq, zq + 1), u),
            mix_s(
                cell_val_s(seed, xq, yq + 1, zq + 1),
                cell_val_s(seed, xq + 1, yq + 1, zq + 1),
                u,
            ),
            w,
        ),
        v,
    )
}

impl NoiseSource {
    pub fn with_seed(seed: u64) -> (n: NoiseSource)
        ensures
            n.seed == seed,
    {
        NoiseSource { seed }
    }

    /// Sample the 2D noise field: deterministic in (seed, x, y), bounded.
    pub fn get_noise_2d(&self, x: i64, y: i64) -> (v: i64)
        ensures
            v == noise2_s(self.seed, x as int, y as int),
            -FX_ONE <= v <= FX_ONE,
    {
        let xp = fx_floor_parts(x);
        let yp = fx_floor_parts(y);
        let u: i64 = fade(xp.1);
        let w: i64 = fade(yp.1);
        let v00: i64 = cell_val(self.seed, xp.0, yp.0, 0);
        let v10: i64 = cell_val(self.seed, xp.0 + 1, yp.0, 0);
        let v01: i64 = cell_val(self.seed, xp.0, yp.0 + 1, 0);
        let v11: i64 = cell_val(self.seed, xp.0 + 1, yp.0 + 1, 0);
        mix(mix(v00, v10, u), mix(v01, v11, u), w)
    }

    /// Sample the 3D noise field: deterministic in (seed, x, y, z), bounded.
    pub fn get_noise_3d(&self, x: i64, y: i64, z: i64) -> (v: i64)
        ensures
            v == noise3_s(self.seed, x as int, y as int, z as int),
            -FX_ONE <= v <= FX_ONE,
    {
        let xp = fx_floor_parts(x);
        let yp = fx_floor_parts(y);
        let zp = fx_floor_parts(z);
        let u: i64 = fade(xp.1);
        let w: i64 = fade(yp.1);
        let v: i64 = fade(zp.1);
        let v000: i64 = cell_val(self.seed, xp.0, yp.0, zp.0);
        let v100: i64 = cell_val(self.seed, xp.0 + 1, yp.0, zp.0);
        let v010: i64 = cell_val(self.seed, xp.0, yp.0 + 1, zp.0);
        let v110: i64 = cell_val(self.seed, xp.0 + 1, yp.0 + 1, zp.0);
        let v001: i64 = cell_val(self.seed, xp.0, yp.0, zp.0 + 1);
        let v101: i64 = cell_val(self.seed, xp.0 + 1, yp.0, zp.0 + 1);
        let v011: i64 = cell_val(self.seed, xp.0, yp.0 + 1, zp.0 + 1);
        let v111: i64 = cell_val(self.seed, xp.0 + 1, yp.0 + 1, zp.0 + 1);
        mix(
            mix(mix(v000, v100, u), mix(v010, v110, u), w),
            mix(mix(v001, v101, u), mix(v011, v111, u), w),
            v,
        )
    }
}

} // verus!
