use vstd::prelude::*;

verus! {

/// Largest width or height of a texture buffer, a machine limit that keeps
/// every byte offset computation inside `usize` on any platform.
pub const DIM_MAX: u32 = 16384;

/// One pixel in the fixed 4-byte format the buffer stores, in byte order:
/// blue, green, red, alpha.
#[derive(Clone, Copy, PartialEq, Eq, Structural, Debug)]
pub struct Color {
    pub b: u8,
    pub g: u8,
    pub r: u8,
    pub a: u8,
}

/// Byte offset of pixel `(x, y)` in a row-major buffer of width `w` with
/// 4 bytes per pixel.
pub open spec fn pix_idx(w: int, x: int, y: int) -> int {
    4 * (y * w + x)
}

/// The four bytes of pixel `(x, y)` of `buf` hold the color `c`.
pub open spec fn pixel_is(buf: Seq<u8>, w: int, x: int, y: int, c: Color) -> bool {
    let i = pix_idx(w, x, y);
    &&& buf[i] == c.b
    &&& buf[i + 1] == c.g
    &&& buf[i + 2] == c.r
    &&& buf[i + 3] == c.a
}

/// The four bytes of pixel `(x, y)` agree between `b1` and `b2`.
pub open spec fn pixel_same(b1: Seq<u8>, b2: Seq<u8>, w: int, x: int, y: int) -> bool {
    let i = pix_idx(w, x, y);
    &&& b2[i] == b1[i]
    &&& b2[i + 1] == b1[i + 1]
    &&& b2[i + 2] == b1[i + 2]
    &&& b2[i + 3] == b1[i + 3]
}

/// Distinct in-range pixel coordinates occupy distinct row-major cells.
pub proof fn lemma_rowmajor_ne(w: int, x1: int, y1: int, x2: int, y2: int)
    requires
        0 <= x1 < w,
        0 <= x2 < w,
        x1 != x2 || y1 != y2,
    ensures
        y1 * w + x1 != y2 * w + x2,
{
    if y1 != y2 {
        assert(y1 * w + x1 != y2 * w + x2) by (nonlinear_arith)
            requires
                0 <= x1 < w,
                0 <= x2 < w,
                y1 != y2,
        ;
    }
}

/// A flat byte array holding a `width x height` grid of 4-byte pixels,
/// written only through bounds-checked pixel stores.
pub struct TextureBuffer {
    pub buffer: Vec<u8>,
    pub size: (u32, u32),
    pub bytes_per_pixel: u32,
}

impl TextureBuffer {
    /// Width in pixels, as a mathematical integer.
    pub open spec fn w(self) -> int {
        self.size.0 as int
    }

    /// Height in pixels, as a mathematical integer.
    pub open spec fn h(self) -> int {
        self.size.1 as int
    }

    /// The buffer owns exactly `width * height` pixels of 4 bytes each and
    /// its dimensions respect the machine limit.
    pub open spec fn wf(self) -> bool {
        &&& self.bytes_per_pixel == 4
        &&& self.size.0 <= DIM_MAX
        &&& self.size.1 <= DIM_MAX
        &&& self.buffer@.len() == self.w() * self.h() * 4
    }

    /// A zero-initialized buffer of the given dimensions. The pixel format
    /// is fixed at 4 bytes per pixel (blue, green, red, alpha).
    pub fn new(size: (u32, u32), bytes_per_pixel: u32) -> (r: TextureBuffer)
        requires
            bytes_per_pixel == 4,
            size.0 <= DIM_MAX,
            size.1 <= DIM_MAX,
        ensures
            r.wf(),
            r.size == size,
            forall|j: int| 0 <= j < r.buffer@.len() ==> r.buffer@[j] == 0u8,
    {
        proof {
            assert((size.0 as int) * (size.1 as int) * 4 <= 0x40000000) by (nonlinear_arith)
                requires
                    size.0 <= DIM_MAX,
                    size.1 <= DIM_MAX,
            ;
        }
        let n: usize = (size.0 as usize) * (size.1 as usize) * 4;
        TextureBuffer { buffer: vec![0u8; n], size, bytes_per_pixel }
    }

    /// Bytes per row, what a consumer needs to stream the buffer into a
    /// display surface.
    pub fn pitch(&self) -> (r: usize)
        requires
            self.wf(),
        ensures
            r == self.w() * 4,
    {
        (self.size.0 as usize) * 4
    }

    /// Sets every byte of the buffer to `value`.
    pub fn clear(&mut self, value: u8)
        requires
            old(self).wf(),
        ensures
            final(self).wf(),
            final(self).size == old(self).size,
            final(self).buffer@.len() == old(self).buffer@.len(),
            forall|j: int| 0 <= j < final(self).buffer@.len() ==> final(self).buffer@[j] == value,
    {
        let n = self.buffer.len();
        let mut i: usize = 0;
        while i < n
            invariant
                n == self.buffer@.len(),
                i <= n,
                self.size == old(self).size,
                self.bytes_per_pixel == old(self).bytes_per_pixel,
                self.buffer@.len() == old(self).buffer@.len(),
                forall|j: int| 0 <= j < i ==> self.buffer@[j] == value,
            decreases n - i,
        {
            self.buffer[i] = value;
            i = i + 1;
        }
    }

    /// Stores `color` at pixel `(point.0, point.1)`; every other pixel is
    /// untouched. The caller guarantees the coordinates are in range.
    pub fn set(&mut self, point: (u32, u32), color: &Color)
        requires
            old(self).wf(),
            point.0 < old(self).size.0,
            point.1 < old(self).size.1,
        ensures
            final(self).wf(),
            final(self).size == old(self).size,
            final(self).buffer@.len() == old(self).buffer@.len(),
            pixel_is(final(self).buffer@, old(self).w(), point.0 as int, point.1 as int, *color),
            forall|xx: int, yy: int|
                0 <= xx < old(self).w() && 0 <= yy < old(self).h() && (xx != point.0 as int || yy
                    != point.1 as int) ==> pixel_same(
                    old(self).buffer@,
                    final(self).buffer@,
                    old(self).w(),
                    xx,
                    yy,
                ),
    {
        let x = point.0 as usize;
        let y = point.1 as usize;
        let w = self.size.0 as usize;
        proof {
            assert(4 * ((point.1 as int) * (self.size.0 as int) + point.0 as int) + 4 <= 4 * (
            (self.size.0 as int) * (self.size.1 as int)) && (point.1 as int) * (self.size.0 as int)
                + point.0 as int <= 0x10000000) by (nonlinear_arith)
                requires
                    point.0 < self.size.0,
                    point.1 < self.size.1,
                    self.size.0 <= DIM_MAX,
                    self.size.1 <= DIM_MAX,
            ;
        }
        let i: usize = 4 * (y * w + x);
        self.buffer[i] = color.b;
        self.buffer[i + 1] = color.g;
        self.buffer[i + 2] = color.r;
        self.buffer[i + 3] = color.a;
        proof {
            let wi = self.w();
            let px = point.0 as int;
            let py = point.1 as int;
            assert forall|xx: int, yy: int|
                0 <= xx < wi && 0 <= yy < self.h() && (xx != px || yy != py) implies pixel_same(
                old(self).buffer@,
                self.buffer@,
                wi,
                xx,
                yy,
            ) by {
                lemma_rowmajor_ne(wi, xx, yy, px, py);
                assert(4 * (yy * wi + xx) + 4 <= 4 * (wi * self.h())) by (nonlinear_arith)
                    requires
                        0 <= xx < wi,
                        0 <= yy < self.h(),
                ;
            }
        }
    }
}

} // verus!
