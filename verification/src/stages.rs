use vstd::prelude::*;

verus! {

use crate::buffer::{Color, DIM_MAX};
use crate::geom::{ClipPos, Vertex, ATTR_MAX, CLIP_MAX, SCALE};
use crate::num::{clamped, iround_div, lemma_mul_bound, lemma_round_div_range, round_div};

/// The vertex stage: a pure function from one attribute bundle to a
/// clip-space position, applied exactly once per vertex of a draw call and
/// never per pixel. `clip_spec` names the stage's mathematical content;
/// `transform` computes exactly it and keeps the result inside the
/// clip-space machine limit.
pub trait VertexStage: Sized {
    spec fn clip_spec(&self, v: Vertex) -> ClipPos;

    fn transform(&self, v: &Vertex) -> (p: ClipPos)
        requires
            v.wf(),
        ensures
            p == self.clip_spec(*v),
            p.wf(),
    ;
}

/// The pixel stage: a pure function from one interpolated attribute bundle
/// to a 4-byte color, invoked once per covered pixel.
pub trait PixelStage: Sized {
    spec fn color_spec(&self, v: Vertex) -> Color;

    fn shade(&self, v: &Vertex) -> (c: Color)
        ensures
            c == self.color_spec(*v),
    ;
}

/// A pixel stage that paints every covered pixel with one fixed color.
#[derive(Clone, Copy, PartialEq, Eq, Structural, Debug)]
pub struct SolidColor {
    pub color: Color,
}

impl PixelStage for SolidColor {
    open spec fn color_spec(&self, v: Vertex) -> Color {
        self.color
    }

    fn shade(&self, v: &Vertex) -> (c: Color) {
        self.color
    }
}

/// A texture coordinate channel mapped to a byte: `c / SCALE` scaled to
/// 0..255 and clamped.
pub open spec fn uv_channel(c: int) -> int {
    clamped(round_div(c * 255, SCALE as int), 0, 255)
}

/// A pixel stage that turns the interpolated texture coordinate into a
/// color gradient: blue stays 0, green follows `uv.y`, red follows `uv.x`,
/// alpha is opaque.
#[derive(Clone, Copy, PartialEq, Eq, Structural, Debug)]
pub struct UvGradient {
}

impl PixelStage for UvGradient {
    open spec fn color_spec(&self, v: Vertex) -> Color {
        Color {
            b: 0,
            g: uv_channel(v.uv.y as int) as u8,
            r: uv_channel(v.uv.x as int) as u8,
            a: 255,
        }
    }

    fn shade(&self, v: &Vertex) -> (c: Color) {
        Color { b: 0, g: uv_byte(v.uv.y), r: uv_byte(v.uv.x), a: 255 }
    }
}

/// One channel of `UvGradient`, computed exactly.
fn uv_byte(c: i64) -> (r: u8)
    ensures
        r == uv_channel(c as int),
{
    proof {
        let m: int = 0x8000000000000000;
        lemma_mul_bound(c as int, 255, m, 255);
        lemma_round_div_range(c as int * 255, SCALE as int, -m * 255, m * 255);
        assert(-m * 255 * (SCALE as int) <= c as int * 255) by (nonlinear_arith)
            requires
                m == 0x8000000000000000int,
                -m * 255 <= c as int * 255,
        ;
        assert(c as int * 255 <= m * 255 * (SCALE as int)) by (nonlinear_arith)
            requires
                m == 0x8000000000000000int,
                c as int * 255 <= m * 255,
        ;
    }
    let q = iround_div((c as i128) * 255, SCALE as i128);
    if q < 0 {
        0
    } else if q > 255 {
        255
    } else {
        q as u8
    }
}

/// Largest magnitude of a fixed-point matrix entry accepted by
/// `MatrixStage`.
pub const MAT_MAX: i64 = 0x4000000;

/// A vertex stage applying a fixed 4x4 matrix, entries in fixed-point
/// `SCALE` units, to the homogeneous point `(position, 1)`; each output
/// component is rounded to the fixed-point grid and saturated at the
/// clip-space machine limit.
#[derive(Clone, Copy, PartialEq, Eq, Structural, Debug)]
pub struct MatrixStage {
    m00: i64, m01: i64, m02: i64, m03: i64,
    m10: i64, m11: i64, m12: i64, m13: i64,
    m20: i64, m21: i64, m22: i64, m23: i64,
    m30: i64, m31: i64, m32: i64, m33: i64,
}

/// One matrix row applied to the homogeneous point `(x, y, z, 1)` in
/// fixed-point: `(m0*x + m1*y + m2*z + m3*SCALE) / SCALE`, rounded, then
/// saturated at the clip-space limit.
pub open spec fn row_apply(m0: int, m1: int, m2: int, m3: int, v: Vertex) -> int {
    clamped(
        round_div(
            m0 * v.position.x + m1 * v.position.y + m2 * v.position.z + m3 * (SCALE as int),
            SCALE as int,
        ),
        -(CLIP_MAX as int),
        CLIP_MAX as int,
    )
}

impl MatrixStage {
    #[verifier::type_invariant]
    spec fn inv(self) -> bool {
        &&& -MAT_MAX <= self.m00 <= MAT_MAX && -MAT_MAX <= self.m01 <= MAT_MAX
        &&& -MAT_MAX <= self.m02 <= MAT_MAX && -MAT_MAX <= self.m03 <= MAT_MAX
        &&& -MAT_MAX <= self.m10 <= MAT_MAX && -MAT_MAX <= self.m11 <= MAT_MAX
        &&& -MAT_MAX <= self.m12 <= MAT_MAX && -MAT_MAX <= self.m13 <= MAT_MAX
        &&& -MAT_MAX <= self.m20 <= MAT_MAX && -MAT_MAX <= self.m21 <= MAT_MAX
        &&& -MAT_MAX <= self.m22 <= MAT_MAX && -MAT_MAX <= self.m23 <= MAT_MAX
        &&& -MAT_MAX <= self.m30 <= MAT_MAX && -MAT_MAX <= self.m31 <= MAT_MAX
        &&& -MAT_MAX <= self.m32 <= MAT_MAX && -MAT_MAX <= self.m33 <= MAT_MAX
    }

    /// Builds the stage from row-major entries, each bounded by `MAT_MAX`.
    pub fn new(rows: [i64; 16]) -> (r: MatrixStage)
        requires
            forall|i: int| 0 <= i < 16 ==> -MAT_MAX <= #[trigger] rows[i] <= MAT_MAX,
        ensures
            forall|v: Vertex| #[trigger] r.clip_spec(v) == MatrixStage::spec_of(rows@, v),
    {
        MatrixStage {
            m00: rows[0], m01: rows[1], m02: rows[2], m03: rows[3],
            m10: rows[4], m11: rows[5], m12: rows[6], m13: rows[7],
            m20: rows[8], m21: rows[9], m22: rows[10], m23: rows[11],
            m30: rows[12], m31: rows[13], m32: rows[14], m33: rows[15],
        }
    }

    /// The clip position a row-major entry sequence assigns to a vertex.
    pub open spec fn spec_of(rows: Seq<i64>, v: Vertex) -> ClipPos {
        ClipPos {
            x: row_apply(rows[0] as int, rows[1] as int, rows[2] as int, rows[3] as int, v) as i64,
            y: row_apply(rows[4] as int, rows[5] as int, rows[6] as int, rows[7] as int, v) as i64,
            z: row_apply(rows[8] as int, rows[9] as int, rows[10] as int, rows[11] as int, v) as i64,
            w: row_apply(rows[12] as int, rows[13] as int, rows[14] as int, rows[15] as int, v) as i64,
        }
    }
}

/// One row of the matrix stage, computed exactly.
fn row_exec(m0: i64, m1: i64, m2: i64, m3: i64, v: &Vertex) -> (r: i64)
    requires
        -MAT_MAX <= m0 <= MAT_MAX,
        -MAT_MAX <= m1 <= MAT_MAX,
        -MAT_MAX <= m2 <= MAT_MAX,
        -MAT_MAX <= m3 <= MAT_MAX,
        v.wf(),
    ensures
        r == row_apply(m0 as int, m1 as int, m2 as int, m3 as int, *v),
        -CLIP_MAX <= r <= CLIP_MAX,
{
    proof {
        lemma_mul_bound(m0 as int, v.position.x as int, MAT_MAX as int, ATTR_MAX as int);
        lemma_mul_bound(m1 as int, v.position.y as int, MAT_MAX as int, ATTR_MAX as int);
        lemma_mul_bound(m2 as int, v.position.z as int, MAT_MAX as int, ATTR_MAX as int);
        lemma_mul_bound(m3 as int, SCALE as int, MAT_MAX as int, SCALE as int);
    }
    let n: i128 = (m0 as i128) * (v.position.x as i128) + (m1 as i128) * (v.position.y as i128)
        + (m2 as i128) * (v.position.z as i128) + (m3 as i128) * (SCALE as i128);
    let q = iround_div(n, SCALE as i128);
    if q < -(CLIP_MAX as i128) {
        -CLIP_MAX
    } else if q > CLIP_MAX as i128 {
        CLIP_MAX
    } else {
        q as i64
    }
}

impl VertexStage for MatrixStage {
    closed spec fn clip_spec(&self, v: Vertex) -> ClipPos {
        ClipPos {
            x: row_apply(self.m00 as int, self.m01 as int, self.m02 as int, self.m03 as int, v) as i64,
            y: row_apply(self.m10 as int, self.m11 as int, self.m12 as int, self.m13 as int, v) as i64,
            z: row_apply(self.m20 as int, self.m21 as int, self.m22 as int, self.m23 as int, v) as i64,
            w: row_apply(self.m30 as int, self.m31 as int, self.m32 as int, self.m33 as int, v) as i64,
        }
    }

    fn transform(&self, v: &Vertex) -> (p: ClipPos) {
        proof {
            use_type_invariant(self);
        }
        ClipPos {
            x: row_exec(self.m00, self.m01, self.m02, self.m03, v),
            y: row_exec(self.m10, self.m11, self.m12, self.m13, v),
            z: row_exec(self.m20, self.m21, self.m22, self.m23, v),
            w: row_exec(self.m30, self.m31, self.m32, self.m33, v),
        }
    }
}

/// A vertex stage for drawing directly in screen space on a square target
/// of side `size` pixels: it reads `position.x` and `position.y` as
/// subpixel screen coordinates and emits the clip position that the
/// viewport transform maps back to exactly them.
#[derive(Clone, Copy, PartialEq, Eq, Structural, Debug)]
pub struct ScreenStage {
    size: u32,
}

impl ScreenStage {
    #[verifier::type_invariant]
    spec fn inv(self) -> bool {
        1 <= self.size <= DIM_MAX
    }

    pub fn new(size: u32) -> (r: ScreenStage)
        requires
            1 <= size <= DIM_MAX,
        ensures
            forall|v: Vertex| #[trigger] r.clip_spec(v) == screen_clip(size as int, v),
    {
        ScreenStage { size }
    }
}

/// The clip position that projects back to the subpixel screen coordinates
/// held in `v.position`, on a square target of side `side` pixels.
pub open spec fn screen_clip(side: int, v: Vertex) -> ClipPos {
    let d = side * SCALE as int;
    ClipPos {
        x: (2 * v.position.x - d) as i64,
        y: (2 * v.position.y - d) as i64,
        z: v.position.z,
        w: d as i64,
    }
}

impl VertexStage for ScreenStage {
    closed spec fn clip_spec(&self, v: Vertex) -> ClipPos {
        screen_clip(self.size as int, v)
    }

    fn transform(&self, v: &Vertex) -> (p: ClipPos) {
        proof {
            use_type_invariant(self);
        }
        let d: i64 = (self.size as i64) * SCALE;
        ClipPos { x: 2 * v.position.x - d, y: 2 * v.position.y - d, z: v.position.z, w: d }
    }
}

} // verus!
