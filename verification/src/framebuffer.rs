//! The framebuffer: a packed-color pixel buffer and a parallel depth buffer,
//! with a depth-tested point write and a per-frame clear.
//!
//! The depth test is "closer wins": a write lands only when its depth is
//! strictly nearer than the depth already stored for that pixel, so after any
//! sequence of writes every pixel holds the color of the nearest write it has
//! seen since the last clear, independent of write order.

use vstd::prelude::*;

verus! {

/// The color every pixel takes on clear.
pub const BACKGROUND_COLOR: u32 = 0;

/// The depth sentinel stored on clear: farther than every real depth.
pub const DEPTH_FAR: i64 = i64::MAX;

pub struct Framebuffer {
    pub width: usize,
    pub height: usize,
    /// Packed 0xRRGGBB colors, row-major, top-left origin.
    pub buffer: Vec<u32>,
    /// Nearest depth seen per pixel since the last clear.
    pub zbuffer: Vec<i64>,
    /// The active draw color used by the next point writes.
    pub current_color: u32,
}

/// The color buffer after one depth-tested write of `col` at (x, y).
pub open spec fn write_buf_s(
    w: int,
    h: int,
    buf: Seq<u32>,
    zbuf: Seq<i64>,
    x: int,
    y: int,
    depth: i64,
    col: u32,
) -> Seq<u32> {
    if 0 <= x < w && 0 <= y < h && depth < zbuf[y * w + x] {
        buf.update(y * w + x, col)
    } else {
        buf
    }
}

/// The depth buffer after one depth-tested write at (x, y).
pub open spec fn write_zbuf_s(
    w: int,
    h: int,
    zbuf: Seq<i64>,
    x: int,
    y: int,
    depth: i64,
) -> Seq<i64> {
    if 0 <= x < w && 0 <= y < h && depth < zbuf[y * w + x] {
        zbuf.update(y * w + x, depth)
    } else {
        zbuf
    }
}

pub proof fn lemma_row_major_index(w: int, h: int, x: int, y: int)
    requires
        0 <= x < w,
        0 <= y < h,
    ensures
        0 <= y * w + x < h * w,
{
    assert(0 <= y * w + x < h * w) by (nonlinear_arith)
        requires
            0 <= x < w,
            0 <= y < h,
    ;
}

fn filled_u32(n: usize, v: u32) -> (r: Vec<u32>)
    ensures
        r@.len() == n,
        forall|i: int| 0 <= i < n ==> r@[i] == v,
{
    let mut r: Vec<u32> = Vec::new();
    let mut k: usize = 0;
    while k < n
        invariant
            k <= n,
            r@.len() == k,
            forall|i: int| 0 <= i < k ==> r@[i] == v,
        decreases n - k,
    {
        r.push(v);
        k = k + 1;
    }
    r
}

fn filled_i64(n: usize, v: i64) -> (r: Vec<i64>)
    ensures
        r@.len() == n,
        forall|i: int| 0 <= i < n ==> r@[i] == v,
{
    let mut r: Vec<i64> = Vec::new();
    let mut k: usize = 0;
    while k < n
        invariant
            k <= n,
            r@.len() == k,
            forall|i: int| 0 <= i < k ==> r@[i] == v,
        decreases n - k,
    {
        r.push(v);
        k = k + 1;
    }
    r
}

impl Framebuffer {
    /// Both buffers cover exactly width * height pixels.
    pub open spec fn wf(self) -> bool {
        self.buffer@.len() == self.width * self.height && self.zbuffer@.len() == self.width
            * self.height && self.width * self.height <= usize::MAX
    }

    /// A fresh framebuffer: every pixel at the background color, every depth
    /// at the far sentinel.
    pub fn new(width: usize, height: usize) -> (fb: Framebuffer)
        requires
            width * height <= usize::MAX,
        ensures
            fb.wf(),
            fb.width == width,
            fb.height == height,
            fb.current_color == BACKGROUND_COLOR,
            forall|i: int|
                0 <= i < width * height ==> fb.buffer@[i] == BACKGROUND_COLOR && fb.zbuffer@[i]
                    == DEPTH_FAR,
    {
        let n: usize = width * height;
        Framebuffer {
            width,
            height,
            buffer: filled_u32(n, BACKGROUND_COLOR),
            zbuffer: filled_i64(n, DEPTH_FAR),
            current_color: BACKGROUND_COLOR,
        }
    }

    /// Reset every pixel to the background color and every depth entry to the
    /// far sentinel; dimensions and the active color are untouched.
    pub fn clear(&mut self)
        requires
            old(self).wf(),
        ensures
            final(self).wf(),
            final(self).width == old(self).width,
            final(self).height == old(self).height,
            final(self).current_color == old(self).current_color,
            forall|i: int|
                0 <= i < final(self).buffer@.len() ==> final(self).buffer@[i] == BACKGROUND_COLOR
                    && final(self).zbuffer@[i] == DEPTH_FAR,
    {
        let n: usize = self.buffer.len();
        let mut k: usize = 0;
        while k < n
            invariant
                k <= n,
                self.wf(),
                self.buffer@.len() == n,
                self.width == old(self).width,
                self.height == old(self).height,
                self.current_color == old(self).current_color,
                forall|i: int|
                    0 <= i < k ==> self.buffer@[i] == BACKGROUND_COLOR && self.zbuffer@[i]
                        == DEPTH_FAR,
            decreases n - k,
        {
            self.buffer.set(k, BACKGROUND_COLOR);
            self.zbuffer.set(k, DEPTH_FAR);
            k = k + 1;
        }
    }

    /// Set the active draw color used by subsequent point writes.
    pub fn set_current_color(&mut self, color: u32)
        ensures
            final(self).width == old(self).width,
            final(self).height == old(self).height,
            final(self).buffer@ == old(self).buffer@,
            final(self).zbuffer@ == old(self).zbuffer@,
            final(self).current_color == color,
    {
        self.current_color = color;
    }

    /// Depth-tested pixel write: commits the active color at (x, y) when the
    /// coordinate is in bounds and `depth` is strictly nearer than the stored
    /// depth; otherwise a silent no-op.
    pub fn point(&mut self, x: usize, y: usize, depth: i64)
        requires
            old(self).wf(),
        ensures
            final(self).wf(),
            final(self).width == old(self).width,
            final(self).height == old(self).height,
            final(self).current_color == old(self).current_color,
            final(self).buffer@ == write_buf_s(
                old(self).width as int,
                old(self).height as int,
                old(self).buffer@,
                old(self).zbuffer@,
                x as int,
                y as int,
                depth,
                old(self).current_color,
            ),
            final(self).zbuffer@ == write_zbuf_s(
                old(self).width as int,
                old(self).height as int,
                old(self).zbuffer@,
                x as int,
                y as int,
                depth,
            ),
    {
        if x < self.width && y < self.height {
            proof {
                lemma_row_major_index(
                    self.width as int,
                    self.height as int,
                    x as int,
                    y as int,
                );
                assert(self.height as int * self.width as int == self.width as int
                    * self.height as int) by (nonlinear_arith);
            }
            let idx: usize = y * self.width + x;
            if depth < self.zbuffer[idx] {
                let col: u32 = self.current_color;
                self.buffer.set(idx, col);
                self.zbuffer.set(idx, depth);
            }
        }
    }
}

/// The depth test is order-independent: writing depths d1 then d2 at one
/// pixel leaves the same buffers as writing d2 then d1, and the pixel holds
/// the color of the nearer write wherever one landed.
pub proof fn lemma_depth_test_commutes(
    w: int,
    h: int,
    buf: Seq<u32>,
    zbuf: Seq<i64>,
    x: int,
    y: int,
    d1: i64,
    c1: u32,
    d2: i64,
    c2: u32,
)
    requires
        buf.len() == h * w,
        zbuf.len() == h * w,
        d1 != d2,
    ensures
        write_buf_s(w, h, write_buf_s(w, h, buf, zbuf, x, y, d1, c1), write_zbuf_s(w, h, zbuf, x, y, d1), x, y, d2, c2)
            =~= write_buf_s(w, h, write_buf_s(w, h, buf, zbuf, x, y, d2, c2), write_zbuf_s(w, h, zbuf, x, y, d2), x, y, d1, c1),
        write_zbuf_s(w, h, write_zbuf_s(w, h, zbuf, x, y, d1), x, y, d2)
            =~= write_zbuf_s(w, h, write_zbuf_s(w, h, zbuf, x, y, d2), x, y, d1),
        (0 <= x < w && 0 <= y < h && (if d1 < d2 { d1 } else { d2 }) < zbuf[y * w + x])
            ==> write_buf_s(w, h, write_buf_s(w, h, buf, zbuf, x, y, d1, c1), write_zbuf_s(w, h, zbuf, x, y, d1), x, y, d2, c2)[y * w + x]
                == (if d1 < d2 { c1 } else { c2 }),
{
    let b12 = write_buf_s(
        w, h, write_buf_s(w, h, buf, zbuf, x, y, d1, c1), write_zbuf_s(w, h, zbuf, x, y, d1), x, y, d2, c2,
    );
    let b21 = write_buf_s(
        w, h, write_buf_s(w, h, buf, zbuf, x, y, d2, c2), write_zbuf_s(w, h, zbuf, x, y, d2), x, y, d1, c1,
    );
    let z12 = write_zbuf_s(w, h, write_zbuf_s(w, h, zbuf, x, y, d1), x, y, d2);
    let z21 = write_zbuf_s(w, h, write_zbuf_s(w, h, zbuf, x, y, d2), x, y, d1);
    if 0 <= x < w && 0 <= y < h {
        lemma_row_major_index(w, h, x, y);
        let idx = y * w + x;
        let z0 = zbuf[idx];
        assert forall|j: int| 0 <= j < b12.len() implies b12[j] == b21[j] by {
            if j == idx {
                if d1 < z0 && d2 < z0 {
                    if d1 < d2 {
                        assert(b12[j] == c1);
                        assert(b21[j] == c1);
                    } else {
                        assert(b12[j] == c2);
                        assert(b21[j] == c2);
                    }
                } else if d1 < z0 {
                    assert(b12[j] == c1);
                    assert(b21[j] == c1);
                } else if d2 < z0 {
                    assert(b12[j] == c2);
                    assert(b21[j] == c2);
                } else {
                    assert(b12[j] == buf[j]);
                    assert(b21[j] == buf[j]);
                }
            } else {
                assert(b12[j] == buf[j]);
                assert(b21[j] == buf[j]);
            }
        }
        assert forall|j: int| 0 <= j < z12.len() implies z12[j] == z21[j] by {
            if j == idx {
                if d1 < z0 && d2 < z0 {
                    if d1 < d2 {
                        assert(z12[j] == d1);
                        assert(z21[j] == d1);
                    } else {
                        assert(z12[j] == d2);
                        assert(z21[j] == d2);
                    }
                } else if d1 < z0 {
                    assert(z12[j] == d1);
                    assert(z21[j] == d1);
                } else if d2 < z0 {
                    assert(z12[j] == d2);
                    assert(z21[j] == d2);
                } else {
                    assert(z12[j] == zbuf[j]);
                    assert(z21[j] == zbuf[j]);
                }
            } else {
                assert(z12[j] == zbuf[j]);
                assert(z21[j] == zbuf[j]);
            }
        }
    }
    assert(b12 =~= b21);
    assert(z12 =~= z21);
}

} // verus!
