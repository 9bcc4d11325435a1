use vstd::prelude::*;

verus! {

use crate::buffer::{pixel_is, pixel_same, Color, TextureBuffer, DIM_MAX};
use crate::geom::{
    interpolate, spec_interpolate, spec_vertex_lerp, vertex_lerp, ClipPos, ScreenPt, Vertex,
    CLIP_MAX, COORD_MAX, HALF_SCALE, SCALE, WEIGHT_MAX,
};
use crate::num::{
    ceil_div, clamped, idiv_ceil, iround_div, lemma_mul_bound, lemma_round_div_range, round_div,
};
use crate::stages::{PixelStage, VertexStage};
use vstd::math::{max, min};

/// Anchor for quantifiers that range over pixel coordinates; always true,
/// it only gives those quantifiers a stable trigger.
pub open spec fn pix(x: int, y: int) -> bool {
    true
}

/// The first pixel row (or column) whose sampling point, half a pixel past
/// the pixel's integer coordinate, lies at or beyond the subpixel
/// coordinate `c`: `ceil(c / SCALE - 1/2)`. Scanning half-open ranges of
/// such rows is the tie-break rule that makes triangles sharing an edge
/// tile the surface without gaps or double-covered pixels.
pub open spec fn snap(c: int) -> int {
    ceil_div(2 * c - SCALE as int, 2 * SCALE as int)
}

/// `snap` for the exact rational subpixel coordinate `num / den`, `den > 0`.
pub open spec fn snap_rat(num: int, den: int) -> int {
    ceil_div(2 * num - den * SCALE as int, 2 * den * SCALE as int)
}

/// Numerator of the exact x-coordinate where the edge `s -> e` crosses the
/// sampling line of pixel row `y`, over the denominator `e.y - s.y`.
pub open spec fn icpt_num(s: ScreenPt, e: ScreenPt, y: int) -> int {
    s.x * (e.y - s.y) + (e.x - s.x) * (y * SCALE as int + HALF_SCALE as int - s.y)
}

/// First pixel column whose sampling point lies at or right of the edge
/// `s -> e` on pixel row `y`; meaningful for a descending edge
/// (`e.y > s.y`).
pub open spec fn span_edge(s: ScreenPt, e: ScreenPt, y: int) -> int {
    snap_rat(icpt_num(s, e, y), e.y - s.y)
}

/// Whether pixel `(x, y)` of a `w x h` target is covered by the flat
/// triangle scanned from subpixel height `ytop` down to `ybot`, bounded on
/// the left by the descending edge `ls -> le` and on the right by
/// `rs -> re`. Rows and columns are half-open and clamped to the target.
pub open spec fn flat_covered(
    ls: ScreenPt, le: ScreenPt, rs: ScreenPt, re: ScreenPt,
    ytop: int, ybot: int, w: int, h: int, x: int, y: int,
) -> bool {
    &&& le.y > ls.y
    &&& re.y > rs.y
    &&& max(snap(ytop), 0) <= y < min(snap(ybot), h)
    &&& max(span_edge(ls, le, y), 0) <= x < min(span_edge(rs, re, y), w)
}

/// The 2D cross product `u x v`.
pub open spec fn cross2(ux: int, uy: int, vx: int, vy: int) -> int {
    ux * vy - uy * vx
}

/// Barycentric denominator: the cross product of the triangle's two edge
/// vectors out of `p0`, twice its signed area.
pub open spec fn bary_d(p0: ScreenPt, p1: ScreenPt, p2: ScreenPt) -> int {
    cross2(p1.x - p0.x, p1.y - p0.y, p2.x - p0.x, p2.y - p0.y)
}

/// Numerator of the weight of `p1` at sample point `(px, py)`.
pub open spec fn bary_w1(p0: ScreenPt, p1: ScreenPt, p2: ScreenPt, px: int, py: int) -> int {
    cross2(px - p0.x, py - p0.y, p2.x - p0.x, p2.y - p0.y)
}

/// Numerator of the weight of `p2` at sample point `(px, py)`.
pub open spec fn bary_w2(p0: ScreenPt, p1: ScreenPt, p2: ScreenPt, px: int, py: int) -> int {
    cross2(p1.x - p0.x, p1.y - p0.y, px - p0.x, py - p0.y)
}

/// Numerator of the weight of `p0`: the remainder to a full partition,
/// `d - w1 - w2`.
pub open spec fn bary_w0(p0: ScreenPt, p1: ScreenPt, p2: ScreenPt, px: int, py: int) -> int {
    bary_d(p0, p1, p2) - bary_w1(p0, p1, p2, px, py) - bary_w2(p0, p1, p2, px, py)
}

/// What one fill step leaves in pixel `(x, y)`: the color `opt` carries if
/// it carries one, the pixel's previous bytes otherwise.
pub open spec fn pixel_done(
    oldb: Seq<u8>,
    newb: Seq<u8>,
    w: int,
    x: int,
    y: int,
    opt: Option<Color>,
) -> bool {
    match opt {
        Some(c) => pixel_is(newb, w, x, y, c),
        None => pixel_same(oldb, newb, w, x, y),
    }
}

/// What one flat-triangle fill does to pixel `(x, y)`: the shaded color of
/// the interpolated attributes where the pixel is covered and the triangle
/// has nonzero area, nothing otherwise. The barycentric sample point is the
/// pixel's integer coordinate in subpixel units.
pub open spec fn flat_pixel<PS: PixelStage>(
    ps: PS,
    ls: ScreenPt, le: ScreenPt, rs: ScreenPt, re: ScreenPt,
    p0: ScreenPt, p1: ScreenPt, p2: ScreenPt,
    v0: Vertex, v1: Vertex, v2: Vertex,
    w: int, h: int, x: int, y: int,
) -> Option<Color> {
    if flat_covered(ls, le, rs, re, p0.y as int, p2.y as int, w, h, x, y) {
        let d = bary_d(p0, p1, p2);
        if d != 0 {
            let px = x * SCALE as int;
            let py = y * SCALE as int;
            Some(
                ps.color_spec(
                    spec_interpolate(
                        v0, v1, v2,
                        bary_w0(p0, p1, p2, px, py),
                        bary_w1(p0, p1, p2, px, py),
                        bary_w2(p0, p1, p2, px, py),
                        d,
                    ),
                ),
            )
        } else {
            None
        }
    } else {
        None
    }
}

/// `flat_pixel` for a flat-top triangle `p0 p1 p2` with `p0` top-left,
/// `p1` top-right and `p2` the bottom apex: left edge `p0 -> p2`, right
/// edge `p1 -> p2`.
pub open spec fn flat_top_pixel<PS: PixelStage>(
    ps: PS,
    p0: ScreenPt, p1: ScreenPt, p2: ScreenPt,
    v0: Vertex, v1: Vertex, v2: Vertex,
    w: int, h: int, x: int, y: int,
) -> Option<Color> {
    flat_pixel(ps, p0, p2, p1, p2, p0, p1, p2, v0, v1, v2, w, h, x, y)
}

/// `flat_pixel` for a flat-bottom triangle `p0 p1 p2` with `p0` the top
/// apex, `p1` bottom-left and `p2` bottom-right: left edge `p0 -> p1`,
/// right edge `p0 -> p2`.
pub open spec fn flat_bottom_pixel<PS: PixelStage>(
    ps: PS,
    p0: ScreenPt, p1: ScreenPt, p2: ScreenPt,
    v0: Vertex, v1: Vertex, v2: Vertex,
    w: int, h: int, x: int, y: int,
) -> Option<Color> {
    flat_pixel(ps, p0, p1, p0, p2, p0, p1, p2, v0, v1, v2, w, h, x, y)
}

/// The three point/attribute pairs sorted by ascending y through the
/// pairwise conditional swaps of the fill routine, each point keeping its
/// attribute bundle attached.
pub open spec fn sort3(
    p0: ScreenPt, p1: ScreenPt, p2: ScreenPt, v0: Vertex, v1: Vertex, v2: Vertex,
) -> ((ScreenPt, Vertex), (ScreenPt, Vertex), (ScreenPt, Vertex)) {
    let (a0, u0, a1, u1) = if p1.y < p0.y {
        (p1, v1, p0, v0)
    } else {
        (p0, v0, p1, v1)
    };
    let (b1, t1, b2, t2) = if p2.y < a1.y {
        (p2, v2, a1, u1)
    } else {
        (a1, u1, p2, v2)
    };
    let (c0, s0, c1, s1) = if b1.y < a0.y {
        (b1, t1, a0, u0)
    } else {
        (a0, u0, b1, t1)
    };
    ((c0, s0), (c1, s1), (b2, t2))
}

/// What drawing one screen-space triangle does to pixel `(x, y)`: sort the
/// corners by ascending y, fill a natural flat-top or flat-bottom triangle
/// directly, and split a general triangle at the middle corner's height
/// into a flat-bottom and a flat-top half sharing a synthetic point on the
/// long edge. The flat-top half is drawn last, so where both halves would
/// claim a pixel its color stands.
pub open spec fn tri_pixel<PS: PixelStage>(
    ps: PS,
    p0: ScreenPt, p1: ScreenPt, p2: ScreenPt,
    v0: Vertex, v1: Vertex, v2: Vertex,
    w: int, h: int, x: int, y: int,
) -> Option<Color> {
    let ((a0, u0), (a1, u1), (a2, u2)) = sort3(p0, p1, p2, v0, v1, v2);
    if a0.y == a1.y {
        if a1.x < a0.x {
            flat_top_pixel(ps, a1, a0, a2, u1, u0, u2, w, h, x, y)
        } else {
            flat_top_pixel(ps, a0, a1, a2, u0, u1, u2, w, h, x, y)
        }
    } else if a1.y == a2.y {
        if a2.x < a1.x {
            flat_bottom_pixel(ps, a0, a2, a1, u0, u2, u1, w, h, x, y)
        } else {
            flat_bottom_pixel(ps, a0, a1, a2, u0, u1, u2, w, h, x, y)
        }
    } else {
        let tn = a1.y - a0.y;
        let td = a2.y - a0.y;
        let pi = ScreenPt { x: (a0.x + round_div((a2.x - a0.x) * tn, td)) as i64, y: a1.y };
        let vi = spec_vertex_lerp(u0, u2, tn, td);
        if a1.x < pi.x {
            match flat_top_pixel(ps, a1, pi, a2, u1, vi, u2, w, h, x, y) {
                Some(c) => Some(c),
                None => flat_bottom_pixel(ps, a0, a1, pi, u0, u1, vi, w, h, x, y),
            }
        } else {
            match flat_top_pixel(ps, pi, a1, a2, vi, u1, u2, w, h, x, y) {
                Some(c) => Some(c),
                None => flat_bottom_pixel(ps, a0, pi, a1, u0, vi, u1, w, h, x, y),
            }
        }
    }
}

/// The backface test numerator: the 2D cross product of the projected
/// edge vectors `p2 - p0` and `p2 - p1`, scaled by the positive factor
/// `w0 * w1 * w2 * w2`; its sign is the sign of the projected signed area
/// whenever every w component is positive.
pub open spec fn cull_num(c0: ClipPos, c1: ClipPos, c2: ClipPos) -> int {
    (c2.x * c0.w - c0.x * c2.w) * (c2.y * c1.w - c1.y * c2.w) - (c2.y * c0.w - c0.y * c2.w) * (
    c2.x * c1.w - c1.x * c2.w)
}

/// One screen axis of the viewport transform: the normalized device
/// coordinate `c / cw` remapped by `(ndc + 1) * (dim / 2)` into subpixel
/// units, rounded to the subpixel grid and clamped to the guard band.
pub open spec fn viewport_coord(c: int, cw: int, dim: int) -> int {
    clamped(
        round_div((c + cw) * dim * SCALE as int, 2 * cw),
        -(COORD_MAX as int),
        COORD_MAX as int,
    )
}

/// The screen-space point a clip position projects to on a `w x h` target:
/// perspective divide by the w component fused with the viewport remap.
pub open spec fn to_screen(v: ClipPos, w: int, h: int) -> ScreenPt {
    ScreenPt {
        x: viewport_coord(v.x as int, v.w as int, w) as i64,
        y: viewport_coord(v.y as int, v.w as int, h) as i64,
    }
}

/// What one triangle of a draw call does to pixel `(x, y)`: nothing when a
/// corner projects to or behind the eye plane (`w <= 0`, the near-plane
/// guard) or when culling is on and the projected winding is negative;
/// otherwise the fill of the projected triangle.
pub open spec fn tri_select<VS: VertexStage, PS: PixelStage>(
    vs: VS, ps: PS, cull: bool, w: int, h: int,
    verts: Seq<Vertex>, i0: int, i1: int, i2: int, x: int, y: int,
) -> Option<Color> {
    let c0 = vs.clip_spec(verts[i0]);
    let c1 = vs.clip_spec(verts[i1]);
    let c2 = vs.clip_spec(verts[i2]);
    if c0.w <= 0 || c1.w <= 0 || c2.w <= 0 {
        None
    } else if cull && cull_num(c0, c1, c2) < 0 {
        None
    } else {
        tri_pixel(
            ps,
            to_screen(c0, w, h), to_screen(c1, w, h), to_screen(c2, w, h),
            verts[i0], verts[i1], verts[i2],
            w, h, x, y,
        )
    }
}

/// What the first `n` triangles of a draw call leave in pixel `(x, y)`:
/// the color of the last triangle that covers the pixel, if any.
pub open spec fn pass_pixel<VS: VertexStage, PS: PixelStage>(
    vs: VS, ps: PS, cull: bool, w: int, h: int,
    indices: Seq<usize>, verts: Seq<Vertex>, n: int, x: int, y: int,
) -> Option<Color>
    decreases n,
{
    if n <= 0 {
        None
    } else {
        match tri_select(
            vs, ps, cull, w, h, verts,
            indices[3 * (n - 1)] as int,
            indices[3 * (n - 1) + 1] as int,
            indices[3 * (n - 1) + 2] as int,
            x, y,
        ) {
            Some(c) => Some(c),
            None => pass_pixel(vs, ps, cull, w, h, indices, verts, n - 1, x, y),
        }
    }
}

/// The backface test numerator, computed exactly.
fn backface_num(c0: &ClipPos, c1: &ClipPos, c2: &ClipPos) -> (r: i128)
    requires
        c0.wf(),
        c1.wf(),
        c2.wf(),
    ensures
        r == cull_num(*c0, *c1, *c2),
{
    proof {
        lemma_mul_bound(c2.x as int, c0.w as int, 0x40000000, 0x40000000);
        lemma_mul_bound(c0.x as int, c2.w as int, 0x40000000, 0x40000000);
        lemma_mul_bound(c2.y as int, c1.w as int, 0x40000000, 0x40000000);
        lemma_mul_bound(c1.y as int, c2.w as int, 0x40000000, 0x40000000);
        lemma_mul_bound(c2.y as int, c0.w as int, 0x40000000, 0x40000000);
        lemma_mul_bound(c0.y as int, c2.w as int, 0x40000000, 0x40000000);
        lemma_mul_bound(c2.x as int, c1.w as int, 0x40000000, 0x40000000);
        lemma_mul_bound(c1.x as int, c2.w as int, 0x40000000, 0x40000000);
    }
    let t0: i128 = (c2.x as i128) * (c0.w as i128) - (c0.x as i128) * (c2.w as i128);
    let t1: i128 = (c2.y as i128) * (c1.w as i128) - (c1.y as i128) * (c2.w as i128);
    let t2: i128 = (c2.y as i128) * (c0.w as i128) - (c0.y as i128) * (c2.w as i128);
    let t3: i128 = (c2.x as i128) * (c1.w as i128) - (c1.x as i128) * (c2.w as i128);
    proof {
        lemma_mul_bound(t0 as int, t1 as int, 0x2000000000000000, 0x2000000000000000);
        lemma_mul_bound(t2 as int, t3 as int, 0x2000000000000000, 0x2000000000000000);
    }
    t0 * t1 - t2 * t3
}

/// One axis of the viewport transform, computed exactly.
fn viewport_exec(c: i64, cw: i64, dim: u32) -> (r: i64)
    requires
        -CLIP_MAX <= c <= CLIP_MAX,
        0 < cw <= CLIP_MAX,
        dim <= DIM_MAX,
    ensures
        r == viewport_coord(c as int, cw as int, dim as int),
        -COORD_MAX <= r <= COORD_MAX,
{
    proof {
        lemma_mul_bound(c + cw, dim as int, 0x80000000, 0x4000);
        lemma_mul_bound((c + cw) * (dim as int), SCALE as int, 0x200000000000, 0x100);
    }
    let n: i128 = ((c as i128) + (cw as i128)) * (dim as i128) * (SCALE as i128);
    let q = iround_div(n, 2 * (cw as i128));
    if q < -(COORD_MAX as i128) {
        -COORD_MAX
    } else if q > COORD_MAX as i128 {
        COORD_MAX
    } else {
        q as i64
    }
}

/// `snap`, computed exactly.
fn snap_exec(c: i64) -> (r: i64)
    requires
        -COORD_MAX <= c <= COORD_MAX,
    ensures
        r == snap(c as int),
{
    let q = idiv_ceil(2 * (c as i128) - (SCALE as i128), 2 * (SCALE as i128));
    q as i64
}

/// The column where a descending edge crosses a pixel row, snapped,
/// computed exactly.
fn span_edge_exec(s: &ScreenPt, e: &ScreenPt, y: i64) -> (r: i64)
    requires
        s.wf(),
        e.wf(),
        e.y > s.y,
        -COORD_MAX <= y <= COORD_MAX,
    ensures
        r == span_edge(*s, *e, y as int),
{
    let den: i128 = (e.y as i128) - (s.y as i128);
    proof {
        lemma_mul_bound(s.x as int, e.y - s.y, 0x4000000, 0x8000000);
        lemma_mul_bound(
            e.x - s.x,
            y * SCALE as int + HALF_SCALE as int - s.y,
            0x8000000,
            0x500000000,
        );
        lemma_mul_bound(e.y - s.y, SCALE as int, 0x8000000, 0x100);
    }
    let num: i128 = (s.x as i128) * den + ((e.x as i128) - (s.x as i128)) * ((y as i128) * (
    SCALE as i128) + (HALF_SCALE as i128) - (s.y as i128));
    let q = idiv_ceil(2 * num - den * (SCALE as i128), 2 * den * (SCALE as i128));
    q as i64
}

/// The barycentric weight numerators and denominator of the sample point
/// `p` with respect to the screen-space triangle `p0 p1 p2`: the three
/// weights sum to the denominator by construction, so the weights
/// `w / d` partition unity.
pub fn barycentric_coordinates(p: &ScreenPt, p0: &ScreenPt, p1: &ScreenPt, p2: &ScreenPt) -> (r: (
    i64,
    i64,
    i64,
    i64,
))
    requires
        p.wf(),
        p0.wf(),
        p1.wf(),
        p2.wf(),
    ensures
        r.0 == bary_w0(*p0, *p1, *p2, p.x as int, p.y as int),
        r.1 == bary_w1(*p0, *p1, *p2, p.x as int, p.y as int),
        r.2 == bary_w2(*p0, *p1, *p2, p.x as int, p.y as int),
        r.3 == bary_d(*p0, *p1, *p2),
        -WEIGHT_MAX <= r.0 <= WEIGHT_MAX,
        -WEIGHT_MAX <= r.1 <= WEIGHT_MAX,
        -WEIGHT_MAX <= r.2 <= WEIGHT_MAX,
        -WEIGHT_MAX <= r.3 <= WEIGHT_MAX,
        r.0 + r.1 + r.2 == r.3,
{
    proof {
        lemma_mul_bound(p1.x - p0.x, p2.y - p0.y, 0x8000000, 0x8000000);
        lemma_mul_bound(p1.y - p0.y, p2.x - p0.x, 0x8000000, 0x8000000);
        lemma_mul_bound(p.x - p0.x, p2.y - p0.y, 0x8000000, 0x8000000);
        lemma_mul_bound(p.y - p0.y, p2.x - p0.x, 0x8000000, 0x8000000);
        lemma_mul_bound(p1.x - p0.x, p.y - p0.y, 0x8000000, 0x8000000);
        lemma_mul_bound(p1.y - p0.y, p.x - p0.x, 0x8000000, 0x8000000);
    }
    let d = (p1.x - p0.x) * (p2.y - p0.y) - (p1.y - p0.y) * (p2.x - p0.x);
    let w1 = (p.x - p0.x) * (p2.y - p0.y) - (p.y - p0.y) * (p2.x - p0.x);
    let w2 = (p1.x - p0.x) * (p.y - p0.y) - (p1.y - p0.y) * (p.x - p0.x);
    let w0 = d - w1 - w2;
    (w0, w1, w2, d)
}

/// The rasterizer: owns the target buffer and the two user stages, with a
/// backface-culling switch fixed at construction. Stateless across draw
/// calls beyond the accumulated buffer contents.
pub struct RenderContext<VS: VertexStage, PS: PixelStage> {
    pub cull_backface: bool,
    pub target: TextureBuffer,
    pub vertex_shader: VS,
    pub pixel_shader: PS,
}

/// The parts of a render context a fill never changes: everything but the
/// bytes of the target buffer.
pub open spec fn same_frame<VS: VertexStage, PS: PixelStage>(
    a: RenderContext<VS, PS>,
    b: RenderContext<VS, PS>,
) -> bool {
    &&& b.cull_backface == a.cull_backface
    &&& b.vertex_shader == a.vertex_shader
    &&& b.pixel_shader == a.pixel_shader
    &&& b.target.size == a.target.size
    &&& b.target.bytes_per_pixel == a.target.bytes_per_pixel
    &&& b.target.buffer@.len() == a.target.buffer@.len()
}

impl<VS: VertexStage, PS: PixelStage> RenderContext<VS, PS> {
    /// The target buffer is well formed.
    pub open spec fn wf(self) -> bool {
        self.target.wf()
    }

    /// Target width in pixels.
    pub open spec fn w(self) -> int {
        self.target.w()
    }

    /// Target height in pixels.
    pub open spec fn h(self) -> int {
        self.target.h()
    }

    pub fn new(cull_backface: bool, target: TextureBuffer, vertex_shader: VS, pixel_shader: PS) -> (r:
        RenderContext<VS, PS>)
        requires
            target.wf(),
        ensures
            r.wf(),
            r.cull_backface == cull_backface,
            r.target == target,
            r.vertex_shader == vertex_shader,
            r.pixel_shader == pixel_shader,
    {
        RenderContext { cull_backface, target, vertex_shader, pixel_shader }
    }

    /// Scanline fill of a flat triangle: rows from `p0.y` down to `p2.y`,
    /// each row's columns between the left edge `ls -> le` and the right
    /// edge `rs -> re`, all half-open and clamped to the target; every
    /// covered pixel is shaded with the interpolated attributes of
    /// `p0 p1 p2`.
    fn draw_flat_triangle_common(
        &mut self,
        ls: &ScreenPt, le: &ScreenPt, rs: &ScreenPt, re: &ScreenPt,
        p0: &ScreenPt, p1: &ScreenPt, p2: &ScreenPt,
        v0: &Vertex, v1: &Vertex, v2: &Vertex,
    )
        requires
            old(self).wf(),
            ls.wf(), le.wf(), rs.wf(), re.wf(),
            p0.wf(), p1.wf(), p2.wf(),
            v0.wf(), v1.wf(), v2.wf(),
        ensures
            final(self).wf(),
            same_frame(*old(self), *final(self)),
            forall|x: int, y: int|
                #[trigger] pix(x, y) && 0 <= x < old(self).w() && 0 <= y < old(self).h()
                    ==> pixel_done(
                    old(self).target.buffer@,
                    final(self).target.buffer@,
                    old(self).w(),
                    x,
                    y,
                    flat_pixel(
                        old(self).pixel_shader,
                        *ls, *le, *rs, *re, *p0, *p1, *p2, *v0, *v1, *v2,
                        old(self).w(), old(self).h(), x, y,
                    ),
                ),
    {
        let ghost w = self.w();
        let ghost h = self.h();
        let ghost ps = self.pixel_shader;
        let ghost buf0 = self.target.buffer@;
        if !(le.y > ls.y && re.y > rs.y) {
            return ;
        }
        let hh: i64 = self.target.size.1 as i64;
        let ww: i64 = self.target.size.0 as i64;
        let ys_raw = snap_exec(p0.y);
        let ye_raw = snap_exec(p2.y);
        let y_start: i64 = if ys_raw < 0 { 0 } else { ys_raw };
        let y_end: i64 = if ye_raw > hh { hh } else { ye_raw };
        let mut y: i64 = y_start;
        while y < y_end
            invariant
                self.wf(),
                same_frame(*old(self), *self),
                ps == old(self).pixel_shader,
                buf0 == old(self).target.buffer@,
                ls.wf(), le.wf(), rs.wf(), re.wf(),
                p0.wf(), p1.wf(), p2.wf(),
                v0.wf(), v1.wf(), v2.wf(),
                le.y > ls.y, re.y > rs.y,
                w == old(self).w(), h == old(self).h(),
                ww == w, hh == h,
                y_start == max(snap(p0.y as int), 0),
                y_end == min(snap(p2.y as int), h),
                y_start <= y,
                y_end <= hh,
                forall|xx: int, yy: int|
                    #[trigger] pix(xx, yy) && 0 <= xx < w && 0 <= yy < h ==> if yy < y {
                        pixel_done(
                            buf0,
                            self.target.buffer@,
                            w, xx, yy,
                            flat_pixel(
                                ps, *ls, *le, *rs, *re, *p0, *p1, *p2, *v0, *v1, *v2, w, h, xx, yy,
                            ),
                        )
                    } else {
                        pixel_same(buf0, self.target.buffer@, w, xx, yy)
                    },
            decreases y_end - y,
        {
            let xs_raw = span_edge_exec(ls, le, y);
            let xe_raw = span_edge_exec(rs, re, y);
            let x_start: i64 = if xs_raw < 0 { 0 } else { xs_raw };
            let x_end: i64 = if xe_raw > ww { ww } else { xe_raw };
            let mut x: i64 = x_start;
            while x < x_end
                invariant
                    self.wf(),
                    same_frame(*old(self), *self),
                    ps == old(self).pixel_shader,
                    buf0 == old(self).target.buffer@,
                    ls.wf(), le.wf(), rs.wf(), re.wf(),
                    p0.wf(), p1.wf(), p2.wf(),
                    v0.wf(), v1.wf(), v2.wf(),
                    le.y > ls.y, re.y > rs.y,
                    w == old(self).w(), h == old(self).h(),
                    ww == w, hh == h,
                    y_start == max(snap(p0.y as int), 0),
                    y_end == min(snap(p2.y as int), h),
                    y_start <= y < y_end,
                    y_end <= hh,
                    x_start == max(span_edge(*ls, *le, y as int), 0),
                    x_end == min(span_edge(*rs, *re, y as int), w),
                    x_start <= x,
                    x_end <= ww,
                    forall|xx: int, yy: int|
                        #[trigger] pix(xx, yy) && 0 <= xx < w && 0 <= yy < h ==> if yy < y || (yy
                            == y && xx < x) {
                            pixel_done(
                                buf0,
                                self.target.buffer@,
                                w, xx, yy,
                                flat_pixel(
                                    ps, *ls, *le, *rs, *re, *p0, *p1, *p2, *v0, *v1, *v2, w, h, xx, yy,
                                ),
                            )
                        } else {
                            pixel_same(buf0, self.target.buffer@, w, xx, yy)
                        },
                decreases x_end - x,
            {
                let sample = ScreenPt { x: x * SCALE, y: y * SCALE };
                let (w0, w1, w2, d) = barycentric_coordinates(&sample, p0, p1, p2);
                let ghost pre = self.target.buffer@;
                if d != 0 {
                    let interp = interpolate(v0, v1, v2, w0, w1, w2, d);
                    let color = self.pixel_shader.shade(&interp);
                    self.target.set((x as u32, y as u32), &color);
                    proof {
                        assert(flat_covered(
                            *ls, *le, *rs, *re, p0.y as int, p2.y as int, w, h, x as int, y as int,
                        ));
                        assert(pixel_done(
                            buf0,
                            self.target.buffer@,
                            w,
                            x as int,
                            y as int,
                            flat_pixel(
                                ps, *ls, *le, *rs, *re, *p0, *p1, *p2, *v0, *v1, *v2, w, h,
                                x as int, y as int,
                            ),
                        ));
                    }
                }
                proof {
                    assert forall|xx: int, yy: int|
                        #[trigger] pix(xx, yy) && 0 <= xx < w && 0 <= yy < h && !(xx == x as int
                            && yy == y as int) implies pixel_same(
                        pre,
                        self.target.buffer@,
                        w, xx, yy,
                    ) by {}
                }
                x = x + 1;
            }
            proof {
                assert forall|xx: int, yy: int|
                    #[trigger] pix(xx, yy) && 0 <= xx < w && 0 <= yy < h && yy == y as int && xx
                        >= x implies !flat_covered(
                    *ls, *le, *rs, *re, p0.y as int, p2.y as int, w, h, xx, yy,
                ) by {}
            }
            y = y + 1;
        }
        proof {
            assert forall|xx: int, yy: int|
                #[trigger] pix(xx, yy) && 0 <= xx < w && 0 <= yy < h && yy >= y implies !flat_covered(
                *ls, *le, *rs, *re, p0.y as int, p2.y as int, w, h, xx, yy,
            ) by {}
        }
    }

    /// Fills a flat-top triangle: `p0` top-left, `p1` top-right, `p2` the
    /// bottom apex.
    pub fn draw_flat_top_triangle(
        &mut self,
        p0: &ScreenPt, p1: &ScreenPt, p2: &ScreenPt,
        v0: &Vertex, v1: &Vertex, v2: &Vertex,
    )
        requires
            old(self).wf(),
            p0.wf(), p1.wf(), p2.wf(),
            v0.wf(), v1.wf(), v2.wf(),
        ensures
            final(self).wf(),
            same_frame(*old(self), *final(self)),
            forall|x: int, y: int|
                #[trigger] pix(x, y) && 0 <= x < old(self).w() && 0 <= y < old(self).h()
                    ==> pixel_done(
                    old(self).target.buffer@,
                    final(self).target.buffer@,
                    old(self).w(),
                    x,
                    y,
                    flat_top_pixel(
                        old(self).pixel_shader,
                        *p0, *p1, *p2, *v0, *v1, *v2,
                        old(self).w(), old(self).h(), x, y,
                    ),
                ),
    {
        self.draw_flat_triangle_common(p0, p2, p1, p2, p0, p1, p2, v0, v1, v2);
    }

    /// Fills a flat-bottom triangle: `p0` the top apex, `p1` bottom-left,
    /// `p2` bottom-right.
    pub fn draw_flat_bottom_triangle(
        &mut self,
        p0: &ScreenPt, p1: &ScreenPt, p2: &ScreenPt,
        v0: &Vertex, v1: &Vertex, v2: &Vertex,
    )
        requires
            old(self).wf(),
            p0.wf(), p1.wf(), p2.wf(),
            v0.wf(), v1.wf(), v2.wf(),
        ensures
            final(self).wf(),
            same_frame(*old(self), *final(self)),
            forall|x: int, y: int|
                #[trigger] pix(x, y) && 0 <= x < old(self).w() && 0 <= y < old(self).h()
                    ==> pixel_done(
                    old(self).target.buffer@,
                    final(self).target.buffer@,
                    old(self).w(),
                    x,
                    y,
                    flat_bottom_pixel(
                        old(self).pixel_shader,
                        *p0, *p1, *p2, *v0, *v1, *v2,
                        old(self).w(), old(self).h(), x, y,
                    ),
                ),
    {
        self.draw_flat_triangle_common(p0, p1, p0, p2, p0, p1, p2, v0, v1, v2);
    }

    /// Fused perspective divide and viewport remap: maps a clip-space
    /// position with positive w to subpixel screen coordinates via
    /// `screen = (ndc + 1) * (dimension / 2)`, rounded to the subpixel
    /// grid and clamped to the guard band. Depth is not carried: this
    /// pipeline has no depth buffer.
    pub fn transform_to_target_coordinates(&self, v: &ClipPos) -> (r: ScreenPt)
        requires
            self.wf(),
            v.wf(),
            v.w > 0,
        ensures
            r == to_screen(*v, self.w(), self.h()),
            r.wf(),
    {
        ScreenPt {
            x: viewport_exec(v.x, v.w, self.target.size.0),
            y: viewport_exec(v.y, v.w, self.target.size.1),
        }
    }

    /// Fills one screen-space triangle: sorts the corners by ascending y,
    /// dispatches the natural flat cases directly, and splits a general
    /// triangle at the middle corner's height into a flat-bottom and a
    /// flat-top half with an interpolated split vertex.
    pub fn draw_triangle(
        &mut self,
        p0: &ScreenPt, p1: &ScreenPt, p2: &ScreenPt,
        v0: &Vertex, v1: &Vertex, v2: &Vertex,
    )
        requires
            old(self).wf(),
            p0.wf(), p1.wf(), p2.wf(),
            v0.wf(), v1.wf(), v2.wf(),
        ensures
            final(self).wf(),
            same_frame(*old(self), *final(self)),
            forall|x: int, y: int|
                #[trigger] pix(x, y) && 0 <= x < old(self).w() && 0 <= y < old(self).h()
                    ==> pixel_done(
                    old(self).target.buffer@,
                    final(self).target.buffer@,
                    old(self).w(),
                    x,
                    y,
                    tri_pixel(
                        old(self).pixel_shader,
                        *p0, *p1, *p2, *v0, *v1, *v2,
                        old(self).w(), old(self).h(), x, y,
                    ),
                ),
    {
        let ghost w = self.w();
        let ghost h = self.h();
        let ghost ps = self.pixel_shader;
        let ghost buf0 = self.target.buffer@;
        let mut a0 = *p0;
        let mut a1 = *p1;
        let mut a2 = *p2;
        let mut u0 = *v0;
        let mut u1 = *v1;
        let mut u2 = *v2;
        if a1.y < a0.y {
            let tp = a0; a0 = a1; a1 = tp;
            let tv = u0; u0 = u1; u1 = tv;
        }
        if a2.y < a1.y {
            let tp = a1; a1 = a2; a2 = tp;
            let tv = u1; u1 = u2; u2 = tv;
        }
        if a1.y < a0.y {
            let tp = a0; a0 = a1; a1 = tp;
            let tv = u0; u0 = u1; u1 = tv;
        }
        proof {
            assert(sort3(*p0, *p1, *p2, *v0, *v1, *v2) == (((a0, u0), (a1, u1), (a2, u2))));
        }
        if a0.y == a1.y {
            if a1.x < a0.x {
                self.draw_flat_top_triangle(&a1, &a0, &a2, &u1, &u0, &u2);
            } else {
                self.draw_flat_top_triangle(&a0, &a1, &a2, &u0, &u1, &u2);
            }
        } else if a1.y == a2.y {
            if a2.x < a1.x {
                self.draw_flat_bottom_triangle(&a0, &a2, &a1, &u0, &u2, &u1);
            } else {
                self.draw_flat_bottom_triangle(&a0, &a1, &a2, &u0, &u1, &u2);
            }
        } else {
            let tn = a1.y - a0.y;
            let td = a2.y - a0.y;
            let diff = a2.x - a0.x;
            proof {
                lemma_mul_bound(diff as int, tn as int, 0x8000000, 0x8000000);
                if diff >= 0 {
                    assert(0 <= diff * tn <= diff * td) by (nonlinear_arith)
                        requires
                            diff >= 0,
                            0 <= tn <= td,
                    ;
                    lemma_round_div_range(diff as int * tn as int, td as int, 0, diff as int);
                } else {
                    assert(diff * td <= diff * tn <= 0) by (nonlinear_arith)
                        requires
                            diff < 0,
                            0 <= tn <= td,
                    ;
                    lemma_round_div_range(diff as int * tn as int, td as int, diff as int, 0);
                }
            }
            let off = iround_div((diff as i128) * (tn as i128), td as i128);
            let pi = ScreenPt { x: a0.x + (off as i64), y: a1.y };
            let vi = vertex_lerp(u0, u2, tn, td);
            let ghost mid: Seq<u8>;
            if a1.x < pi.x {
                self.draw_flat_bottom_triangle(&a0, &a1, &pi, &u0, &u1, &vi);
                proof {
                    mid = self.target.buffer@;
                }
                self.draw_flat_top_triangle(&a1, &pi, &a2, &u1, &vi, &u2);
                proof {
                    assert forall|x: int, y: int|
                        #[trigger] pix(x, y) && 0 <= x < w && 0 <= y < h implies pixel_done(
                        buf0,
                        self.target.buffer@,
                        w, x, y,
                        tri_pixel(ps, *p0, *p1, *p2, *v0, *v1, *v2, w, h, x, y),
                    ) by {
                        assert(pixel_done(
                            buf0, mid, w, x, y,
                            flat_bottom_pixel(ps, a0, a1, pi, u0, u1, vi, w, h, x, y),
                        ));
                        assert(pixel_done(
                            mid, self.target.buffer@, w, x, y,
                            flat_top_pixel(ps, a1, pi, a2, u1, vi, u2, w, h, x, y),
                        ));
                    }
                }
            } else {
                self.draw_flat_bottom_triangle(&a0, &pi, &a1, &u0, &vi, &u1);
                proof {
                    mid = self.target.buffer@;
                }
                self.draw_flat_top_triangle(&pi, &a1, &a2, &vi, &u1, &u2);
                proof {
                    assert forall|x: int, y: int|
                        #[trigger] pix(x, y) && 0 <= x < w && 0 <= y < h implies pixel_done(
                        buf0,
                        self.target.buffer@,
                        w, x, y,
                        tri_pixel(ps, *p0, *p1, *p2, *v0, *v1, *v2, w, h, x, y),
                    ) by {
                        assert(pixel_done(
                            buf0, mid, w, x, y,
                            flat_bottom_pixel(ps, a0, pi, a1, u0, vi, u1, w, h, x, y),
                        ));
                        assert(pixel_done(
                            mid, self.target.buffer@, w, x, y,
                            flat_top_pixel(ps, pi, a1, a2, vi, u1, u2, w, h, x, y),
                        ));
                    }
                }
            }
        }
    }

    /// One draw call: applies the vertex stage to every vertex exactly
    /// once, then walks the index list three entries at a time; each
    /// triangle is perspective-divided, optionally backface-culled, mapped
    /// to screen coordinates and filled. Triangles with a corner at or
    /// behind the eye plane (`w <= 0`) are skipped whole: this pipeline
    /// does not clip against the near plane.
    #[verifier::spinoff_prover]
    #[verifier::rlimit(100)]
    pub fn draw_indexed_triangles(&mut self, indices: &Vec<usize>, vertices: &Vec<Vertex>)
        requires
            old(self).wf(),
            indices@.len() % 3 == 0,
            forall|i: int| 0 <= i < indices@.len() ==> #[trigger] indices@[i] < vertices@.len(),
            forall|j: int| 0 <= j < vertices@.len() ==> (#[trigger] vertices@[j]).wf(),
        ensures
            final(self).wf(),
            same_frame(*old(self), *final(self)),
            forall|x: int, y: int|
                #[trigger] pix(x, y) && 0 <= x < old(self).w() && 0 <= y < old(self).h()
                    ==> pixel_done(
                    old(self).target.buffer@,
                    final(self).target.buffer@,
                    old(self).w(),
                    x,
                    y,
                    pass_pixel(
                        old(self).vertex_shader,
                        old(self).pixel_shader,
                        old(self).cull_backface,
                        old(self).w(),
                        old(self).h(),
                        indices@,
                        vertices@,
                        indices@.len() as int / 3,
                        x,
                        y,
                    ),
                ),
    {
        let ghost w = self.w();
        let ghost h = self.h();
        let ghost vs = self.vertex_shader;
        let ghost ps = self.pixel_shader;
        let ghost cull = self.cull_backface;
        let ghost buf0 = self.target.buffer@;
        let mut positions: Vec<ClipPos> = Vec::new();
        let mut i: usize = 0;
        while i < vertices.len()
            invariant
                *self == *old(self),
                i <= vertices@.len(),
                positions@.len() == i,
                forall|j: int| 0 <= j < vertices@.len() ==> (#[trigger] vertices@[j]).wf(),
                forall|k: int|
                    0 <= k < i ==> (#[trigger] positions@[k]) == old(self).vertex_shader.clip_spec(
                        vertices@[k],
                    ) && positions@[k].wf(),
            decreases vertices@.len() - i,
        {
            positions.push(self.vertex_shader.transform(&vertices[i]));
            i = i + 1;
        }
        let ilen = indices.len();
        let n_tri = ilen / 3;
        proof {
            vstd::arithmetic::div_mod::lemma_fundamental_div_mod(indices@.len() as int, 3);
        }
        let mut k: usize = 0;
        while k < n_tri
            invariant
                self.wf(),
                same_frame(*old(self), *self),
                w == old(self).w(), h == old(self).h(),
                vs == old(self).vertex_shader,
                ps == old(self).pixel_shader,
                cull == old(self).cull_backface,
                buf0 == old(self).target.buffer@,
                k <= n_tri,
                ilen == indices@.len(),
                indices@.len() == 3 * n_tri,
                forall|idx: int| 0 <= idx < indices@.len() ==> #[trigger] indices@[idx] < vertices@.len(),
                forall|j: int| 0 <= j < vertices@.len() ==> (#[trigger] vertices@[j]).wf(),
                positions@.len() == vertices@.len(),
                forall|kk: int|
                    0 <= kk < positions@.len() ==> (#[trigger] positions@[kk]) == vs.clip_spec(
                        vertices@[kk],
                    ) && positions@[kk].wf(),
                forall|x: int, y: int|
                    #[trigger] pix(x, y) && 0 <= x < w && 0 <= y < h ==> pixel_done(
                        buf0,
                        self.target.buffer@,
                        w, x, y,
                        pass_pixel(vs, ps, cull, w, h, indices@, vertices@, k as int, x, y),
                    ),
            decreases n_tri - k,
        {
            proof {
                assert(3 * k + 2 < indices@.len());
            }
            let i0 = indices[3 * k];
            let i1 = indices[3 * k + 1];
            let i2 = indices[3 * k + 2];
            let c0 = positions[i0];
            let c1 = positions[i1];
            let c2 = positions[i2];
            let ghost pre = self.target.buffer@;
            let mut skip = false;
            if c0.w <= 0 || c1.w <= 0 || c2.w <= 0 {
                skip = true;
            } else if self.cull_backface {
                let cn = backface_num(&c0, &c1, &c2);
                if cn < 0 {
                    skip = true;
                }
            }
            if !skip {
                let s0 = self.transform_to_target_coordinates(&c0);
                let s1 = self.transform_to_target_coordinates(&c1);
                let s2 = self.transform_to_target_coordinates(&c2);
                let va0 = vertices[i0];
                let va1 = vertices[i1];
                let va2 = vertices[i2];
                self.draw_triangle(&s0, &s1, &s2, &va0, &va1, &va2);
            }
            proof {
                assert forall|x: int, y: int|
                    #[trigger] pix(x, y) && 0 <= x < w && 0 <= y < h implies pixel_done(
                    buf0,
                    self.target.buffer@,
                    w, x, y,
                    pass_pixel(vs, ps, cull, w, h, indices@, vertices@, k + 1, x, y),
                ) by {
                    assert(pixel_done(
                        buf0, pre, w, x, y,
                        pass_pixel(vs, ps, cull, w, h, indices@, vertices@, k as int, x, y),
                    ));
                    let sel = tri_select(
                        vs, ps, cull, w, h, vertices@,
                        indices@[3 * (k as int)] as int,
                        indices@[3 * (k as int) + 1] as int,
                        indices@[3 * (k as int) + 2] as int,
                        x, y,
                    );
                    if skip {
                        assert(sel is None);
                        assert(self.target.buffer@ == pre);
                    } else {
                        assert(pixel_done(
                            pre,
                            self.target.buffer@,
                            w, x, y,
                            tri_pixel(
                                ps,
                                to_screen(vs.clip_spec(vertices@[i0 as int]), w, h),
                                to_screen(vs.clip_spec(vertices@[i1 as int]), w, h),
                                to_screen(vs.clip_spec(vertices@[i2 as int]), w, h),
                                vertices@[i0 as int], vertices@[i1 as int], vertices@[i2 as int],
                                w, h, x, y,
                            ),
                        ));
                    }
                }
            }
            k = k + 1;
        }
    }
}

} // verus!
