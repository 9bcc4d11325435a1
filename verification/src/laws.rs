use vstd::prelude::*;

verus! {

use crate::geom::{spec_interpolate, ClipPos, ScreenPt, Vertex, ATTR_MAX};
use crate::num::{ceil_div, lemma_ceil_div_char, lemma_round_div_exact};
use crate::raster::{
    bary_d, bary_w0, bary_w1, bary_w2, cross2, cull_num, flat_bottom_pixel, flat_covered,
    flat_pixel, flat_top_pixel, icpt_num, snap, snap_rat, span_edge, tri_pixel,
};
use crate::stages::PixelStage;
use vstd::math::{max, min};

/// The edge function of the directed edge `a -> b` at the sample point
/// `(px, py)`: positive on the edge's left side, zero on the edge's line.
pub open spec fn edge_fn(a: ScreenPt, b: ScreenPt, px: int, py: int) -> int {
    cross2(b.x - a.x, b.y - a.y, px - a.x, py - a.y)
}

/// Barycentric partition of unity: at every sample point the three weight
/// numerators sum exactly to the denominator, and each is the edge
/// function of the opposite edge, so the normalized weights sum to one.
pub proof fn lemma_barycentric_partition(p0: ScreenPt, p1: ScreenPt, p2: ScreenPt, px: int, py: int)
    ensures
        bary_w0(p0, p1, p2, px, py) + bary_w1(p0, p1, p2, px, py) + bary_w2(p0, p1, p2, px, py)
            == bary_d(p0, p1, p2),
        bary_w0(p0, p1, p2, px, py) == edge_fn(p1, p2, px, py),
        bary_w1(p0, p1, p2, px, py) == edge_fn(p2, p0, px, py),
        bary_w2(p0, p1, p2, px, py) == edge_fn(p0, p1, px, py),
{
    assert(bary_d(p0, p1, p2) - bary_w1(p0, p1, p2, px, py) - bary_w2(p0, p1, p2, px, py)
        == edge_fn(p1, p2, px, py)) by (nonlinear_arith);
    assert(bary_w1(p0, p1, p2, px, py) == edge_fn(p2, p0, px, py)) by (nonlinear_arith);
}

/// For a sample point strictly inside a triangle of positive denominator
/// (all three edge functions positive), every barycentric weight lies
/// strictly between 0 and the denominator: each normalized weight lies in
/// the open interval (0, 1).
pub proof fn lemma_barycentric_inside(p0: ScreenPt, p1: ScreenPt, p2: ScreenPt, px: int, py: int)
    requires
        bary_d(p0, p1, p2) > 0,
        edge_fn(p0, p1, px, py) > 0,
        edge_fn(p1, p2, px, py) > 0,
        edge_fn(p2, p0, px, py) > 0,
    ensures
        0 < bary_w0(p0, p1, p2, px, py) < bary_d(p0, p1, p2),
        0 < bary_w1(p0, p1, p2, px, py) < bary_d(p0, p1, p2),
        0 < bary_w2(p0, p1, p2, px, py) < bary_d(p0, p1, p2),
{
    lemma_barycentric_partition(p0, p1, p2, px, py);
}

/// Reversing a triangle's winding flips the sign of the backface test:
/// with positive w components, exactly one of the two orientations is
/// culled whenever the projected area is nonzero, and neither is when the
/// area is zero.
pub proof fn lemma_winding_flip(c0: ClipPos, c1: ClipPos, c2: ClipPos)
    requires
        c0.w > 0,
        c1.w > 0,
        c2.w > 0,
    ensures
        cull_num(c0, c1, c2) == 0 <==> cull_num(c0, c2, c1) == 0,
        cull_num(c0, c1, c2) < 0 <==> cull_num(c0, c2, c1) > 0,
{
    lemma_cull_swap_identity(c0, c1, c2);
    assert(cull_num(c0, c2, c1) * c2.w == -(cull_num(c0, c1, c2) * c1.w));
    assert(cull_num(c0, c1, c2) == 0 <==> cull_num(c0, c2, c1) == 0) by (nonlinear_arith)
        requires
            cull_num(c0, c2, c1) * c2.w == -(cull_num(c0, c1, c2) * c1.w),
            c1.w > 0,
            c2.w > 0,
    ;
    assert(cull_num(c0, c1, c2) < 0 <==> cull_num(c0, c2, c1) > 0) by (nonlinear_arith)
        requires
            cull_num(c0, c2, c1) * c2.w == -(cull_num(c0, c1, c2) * c1.w),
            c1.w > 0,
            c2.w > 0,
    ;
}

/// The polynomial heart of the winding flip: swapping the last two
/// corners negates the backface numerator up to the positive factors
/// `c1.w` and `c2.w`. Proved by expanding the swapped edge terms over the
/// original ones, one low-degree step at a time.
proof fn lemma_cull_swap_identity(c0: ClipPos, c1: ClipPos, c2: ClipPos)
    ensures
        cull_num(c0, c2, c1) * c2.w == -(cull_num(c0, c1, c2) * c1.w),
{
    let x0 = c0.x as int;
    let y0 = c0.y as int;
    let w0 = c0.w as int;
    let x1 = c1.x as int;
    let y1 = c1.y as int;
    let w1 = c1.w as int;
    let x2 = c2.x as int;
    let y2 = c2.y as int;
    let w2 = c2.w as int;
    let a = x2 * w0 - x0 * w2;
    let b = y2 * w1 - y1 * w2;
    let c = y2 * w0 - y0 * w2;
    let d = x2 * w1 - x1 * w2;
    let ap = x1 * w0 - x0 * w1;
    let bp = y1 * w2 - y2 * w1;
    let cp = y1 * w0 - y0 * w1;
    let dp = x1 * w2 - x2 * w1;
    assert(cull_num(c0, c1, c2) == a * b - c * d);
    assert(cull_num(c0, c2, c1) == ap * bp - cp * dp);
    assert(bp == -b && dp == -d);
    assert(ap * w2 == a * w1 - d * w0) by (nonlinear_arith)
        requires
            ap == x1 * w0 - x0 * w1,
            a == x2 * w0 - x0 * w2,
            d == x2 * w1 - x1 * w2,
    ;
    assert(cp * w2 == c * w1 - b * w0) by (nonlinear_arith)
        requires
            cp == y1 * w0 - y0 * w1,
            c == y2 * w0 - y0 * w2,
            b == y2 * w1 - y1 * w2,
    ;
    assert(ap * bp * w2 == bp * (ap * w2)) by (nonlinear_arith);
    assert(cp * dp * w2 == dp * (cp * w2)) by (nonlinear_arith);
    assert(bp * (a * w1 - d * w0) == -(a * b * w1) + b * (d * w0)) by (nonlinear_arith)
        requires
            bp == -b,
    ;
    assert(dp * (c * w1 - b * w0) == -(c * d * w1) + b * (d * w0)) by (nonlinear_arith)
        requires
            dp == -d,
    ;
    assert((ap * bp - cp * dp) * w2 == ap * bp * w2 - cp * dp * w2) by (nonlinear_arith);
    assert((a * b - c * d) * w1 == a * b * w1 - c * d * w1) by (nonlinear_arith);
}

/// Snapping respects the order of exact rational coordinates: if
/// `n1 / d1 <= n2 / d2` then the first snapped column is at most the
/// second.
pub proof fn lemma_snap_rat_mono(n1: int, d1: int, n2: int, d2: int)
    requires
        d1 > 0,
        d2 > 0,
        n1 * d2 <= n2 * d1,
    ensures
        snap_rat(n1, d1) <= snap_rat(n2, d2),
{
    let sc = crate::geom::SCALE as int;
    let m1 = 2 * n1 - d1 * sc;
    let m2 = 2 * n2 - d2 * sc;
    let dd1 = 2 * d1 * sc;
    let dd2 = 2 * d2 * sc;
    let s2 = ceil_div(m2, dd2);
    lemma_ceil_div_char(m2, dd2, s2);
    lemma_ceil_div_char(m1, dd1, s2);
    assert(m1 * dd2 <= m2 * dd1) by (nonlinear_arith)
        requires
            n1 * d2 <= n2 * d1,
            m1 == 2 * n1 - d1 * sc,
            m2 == 2 * n2 - d2 * sc,
            dd1 == 2 * d1 * sc,
            dd2 == 2 * d2 * sc,
            sc > 0,
            d1 > 0,
            d2 > 0,
    ;
    assert(s2 * dd1 >= m1) by (nonlinear_arith)
        requires
            s2 * dd2 >= m2,
            m1 * dd2 <= m2 * dd1,
            dd1 > 0,
            dd2 > 0,
    ;
}

/// Coverage exactness along a shared edge: two flat triangles scanned over
/// the same rows, one bounded by the outer left edge and the shared edge,
/// the other by the shared edge and the outer right edge, never both cover
/// a pixel; and where the shared crossing lies between the outer crossings
/// on the pixel's row, together they cover exactly the pixels of the
/// combined quad scanned from the outer left edge to the outer right edge.
pub proof fn lemma_shared_edge_partition(
    ls: ScreenPt, le: ScreenPt,
    ms: ScreenPt, me: ScreenPt,
    rs: ScreenPt, re: ScreenPt,
    ytop: int, ybot: int, w: int, h: int, x: int, y: int,
)
    requires
        le.y > ls.y,
        me.y > ms.y,
        re.y > rs.y,
        icpt_num(ls, le, y) * (me.y - ms.y) <= icpt_num(ms, me, y) * (le.y - ls.y),
        icpt_num(ms, me, y) * (re.y - rs.y) <= icpt_num(rs, re, y) * (me.y - ms.y),
    ensures
        !(flat_covered(ls, le, ms, me, ytop, ybot, w, h, x, y) && flat_covered(
            ms, me, rs, re, ytop, ybot, w, h, x, y,
        )),
        flat_covered(ls, le, ms, me, ytop, ybot, w, h, x, y) || flat_covered(
            ms, me, rs, re, ytop, ybot, w, h, x, y,
        ) <==> flat_covered(ls, le, rs, re, ytop, ybot, w, h, x, y),
{
    lemma_snap_rat_mono(icpt_num(ls, le, y), le.y - ls.y, icpt_num(ms, me, y), me.y - ms.y);
    lemma_snap_rat_mono(icpt_num(ms, me, y), me.y - ms.y, icpt_num(rs, re, y), re.y - rs.y);
}

/// Coverage exactness for a concrete shared edge: two flat-bottom
/// triangles with a common apex and a common base line, meeting in the
/// edge from the apex to the shared base corner, never both cover a pixel,
/// and together they cover exactly what one fill of the combined fan
/// covers — no gaps and no double-covered pixels along the shared edge.
pub proof fn lemma_shared_edge_fan(
    p0: ScreenPt, p1: ScreenPt, p2: ScreenPt, p3: ScreenPt,
    w: int, h: int, x: int, y: int,
)
    requires
        p0.y < p1.y,
        p1.y == p2.y,
        p2.y == p3.y,
        p1.x <= p2.x,
        p2.x <= p3.x,
    ensures
        !(flat_covered(p0, p1, p0, p2, p0.y as int, p2.y as int, w, h, x, y) && flat_covered(
            p0, p2, p0, p3, p0.y as int, p3.y as int, w, h, x, y,
        )),
        flat_covered(p0, p1, p0, p2, p0.y as int, p2.y as int, w, h, x, y) || flat_covered(
            p0, p2, p0, p3, p0.y as int, p3.y as int, w, h, x, y,
        ) <==> flat_covered(p0, p1, p0, p3, p0.y as int, p3.y as int, w, h, x, y),
{
    let sc = crate::geom::SCALE as int;
    let hs = crate::geom::HALF_SCALE as int;
    let dd = p1.y - p0.y;
    if max(snap(p0.y as int), 0) <= y < min(snap(p1.y as int), h) {
        // rows at or below the apex sample at or below it
        lemma_ceil_div_char(2 * p0.y - sc, 2 * sc, y);
        let t = y * sc + hs - p0.y;
        assert(t >= 0);
        let nl = icpt_num(p0, p1, y);
        let nm = icpt_num(p0, p2, y);
        let nr = icpt_num(p0, p3, y);
        assert(nm - nl == (p2.x - p1.x) * t && nr - nm == (p3.x - p2.x) * t && nl * dd <= nm * dd
            && nm * dd <= nr * dd) by (nonlinear_arith)
            requires
                nl == p0.x * dd + (p1.x - p0.x) * t,
                nm == p0.x * dd + (p2.x - p0.x) * t,
                nr == p0.x * dd + (p3.x - p0.x) * t,
                p1.x <= p2.x,
                p2.x <= p3.x,
                t >= 0,
                dd > 0,
        ;
        lemma_shared_edge_partition(
            p0, p1, p0, p2, p0, p3, p0.y as int, p2.y as int, w, h, x, y,
        );
    }
}

/// With culling out of the picture, a triangle's winding does not matter:
/// swapping two corners (and their attributes) draws exactly the same
/// pixels with exactly the same colors, because the fill sorts and orders
/// the corners itself. Together with `lemma_winding_flip` this is the
/// whole winding story: the flag culls exactly one orientation, and
/// without it both render identically.
#[verifier::rlimit(100)]
pub proof fn lemma_orientation_irrelevant<PS: PixelStage>(
    ps: PS,
    p0: ScreenPt, p1: ScreenPt, p2: ScreenPt,
    v0: Vertex, v1: Vertex, v2: Vertex,
    w: int, h: int, x: int, y: int,
)
    requires
        p0 != p1,
        p0 != p2,
        p1 != p2,
    ensures
        tri_pixel(ps, p0, p1, p2, v0, v1, v2, w, h, x, y) == tri_pixel(
            ps, p0, p2, p1, v0, v2, v1, w, h, x, y,
        ),
{
}

/// The two halves of a split triangle tile its rows exactly: a fill
/// scanned down to the split height and one scanned from it never both
/// cover a pixel, whatever their edges, because rows are half-open.
pub proof fn lemma_split_rows_disjoint(
    ls1: ScreenPt, le1: ScreenPt, rs1: ScreenPt, re1: ScreenPt,
    ls2: ScreenPt, le2: ScreenPt, rs2: ScreenPt, re2: ScreenPt,
    ytop: int, ym: int, ybot: int, w: int, h: int, x: int, y: int,
)
    ensures
        !(flat_covered(ls1, le1, rs1, re1, ytop, ym, w, h, x, y) && flat_covered(
            ls2, le2, rs2, re2, ym, ybot, w, h, x, y,
        )),
{
}

/// Interpolating an attribute bundle whose three corners are equal returns
/// exactly that bundle for any weights that partition the denominator: the
/// blend is computed with a single rounding, so no drift accumulates.
pub proof fn lemma_constant_interpolation(v: Vertex, w0: int, w1: int, w2: int, d: int)
    requires
        v.wf(),
        d != 0,
        w0 + w1 + w2 == d,
    ensures
        spec_interpolate(v, v, v, w0, w1, w2, d) == v,
{
    lemma_constant_comp(v.position.x as int, w0, w1, w2, d);
    lemma_constant_comp(v.position.y as int, w0, w1, w2, d);
    lemma_constant_comp(v.position.z as int, w0, w1, w2, d);
    lemma_constant_comp(v.uv.x as int, w0, w1, w2, d);
    lemma_constant_comp(v.uv.y as int, w0, w1, w2, d);
}

/// One component of constant interpolation.
proof fn lemma_constant_comp(a: int, w0: int, w1: int, w2: int, d: int)
    requires
        -ATTR_MAX <= a <= ATTR_MAX,
        d != 0,
        w0 + w1 + w2 == d,
    ensures
        crate::geom::spec_interp_comp(a, a, a, w0, w1, w2, d) == a,
{
    assert(a * w0 + a * w1 + a * w2 == a * d) by (nonlinear_arith)
        requires
            w0 + w1 + w2 == d,
    ;
    if d > 0 {
        lemma_round_div_exact(a, d);
    } else {
        assert(-(a * d) == a * (-d)) by (nonlinear_arith);
        lemma_round_div_exact(a, -d);
    }
}

/// A triangle whose three corners coincide covers no pixel at all: its
/// scanline range is empty, so the fill touches nothing and the pixel
/// stage is never consulted.
pub proof fn lemma_coincident_triangle_empty<PS: PixelStage>(
    ps: PS, p: ScreenPt, v0: Vertex, v1: Vertex, v2: Vertex, w: int, h: int, x: int, y: int,
)
    ensures
        tri_pixel(ps, p, p, p, v0, v1, v2, w, h, x, y) is None,
{
}

/// The converse of degenerate safety for a well-formed flat-bottom
/// triangle (apex strictly above the base, base ordered left to right):
/// a covered pixel always lies in a triangle of nonzero signed area, so it
/// is genuinely shaded — coverage and pixel-stage invocation coincide.
pub proof fn lemma_flat_bottom_covered_is_shaded<PS: PixelStage>(
    ps: PS,
    p0: ScreenPt, p1: ScreenPt, p2: ScreenPt,
    v0: Vertex, v1: Vertex, v2: Vertex,
    w: int, h: int, x: int, y: int,
)
    requires
        p0.y < p1.y,
        p1.y == p2.y,
        p1.x <= p2.x,
        flat_covered(p0, p1, p0, p2, p0.y as int, p2.y as int, w, h, x, y),
    ensures
        bary_d(p0, p1, p2) != 0,
        flat_bottom_pixel(ps, p0, p1, p2, v0, v1, v2, w, h, x, y) is Some,
{
    let dd = p2.y - p0.y;
    let nl = icpt_num(p0, p1, y);
    let nr = icpt_num(p0, p2, y);
    let t = y * crate::geom::SCALE as int + crate::geom::HALF_SCALE as int - p0.y;
    assert(span_edge(p0, p1, y) <= x < span_edge(p0, p2, y));
    if nr <= nl {
        assert(nr * dd <= nl * dd) by (nonlinear_arith)
            requires
                nr <= nl,
                dd > 0,
        ;
        lemma_snap_rat_mono(nr, dd, nl, dd);
        assert(false);
    }
    assert(nr - nl == (p2.x - p1.x) * t) by (nonlinear_arith)
        requires
            nl == p0.x * (p1.y - p0.y) + (p1.x - p0.x) * t,
            nr == p0.x * (p2.y - p0.y) + (p2.x - p0.x) * t,
            p1.y == p2.y,
    ;
    assert(p1.x != p2.x) by (nonlinear_arith)
        requires
            (p2.x - p1.x) * t > 0,
    ;
    assert(bary_d(p0, p1, p2) == dd * (p1.x - p2.x)) by (nonlinear_arith)
        requires
            p1.y == p2.y,
            dd == p2.y - p0.y,
    ;
    assert(dd * (p1.x - p2.x) != 0) by (nonlinear_arith)
        requires
            dd > 0,
            p1.x != p2.x,
    ;
}

/// The converse of degenerate safety for a well-formed flat-top triangle
/// (base ordered left to right, apex strictly below): a covered pixel
/// always lies in a triangle of nonzero signed area and is shaded.
pub proof fn lemma_flat_top_covered_is_shaded<PS: PixelStage>(
    ps: PS,
    p0: ScreenPt, p1: ScreenPt, p2: ScreenPt,
    v0: Vertex, v1: Vertex, v2: Vertex,
    w: int, h: int, x: int, y: int,
)
    requires
        p0.y == p1.y,
        p0.x <= p1.x,
        p1.y < p2.y,
        flat_covered(p0, p2, p1, p2, p0.y as int, p2.y as int, w, h, x, y),
    ensures
        bary_d(p0, p1, p2) != 0,
        flat_top_pixel(ps, p0, p1, p2, v0, v1, v2, w, h, x, y) is Some,
{
    let dd = p2.y - p0.y;
    let nl = icpt_num(p0, p2, y);
    let nr = icpt_num(p1, p2, y);
    let t = y * crate::geom::SCALE as int + crate::geom::HALF_SCALE as int - p0.y;
    assert(span_edge(p0, p2, y) <= x < span_edge(p1, p2, y));
    if nr * dd <= nl * dd {
        lemma_snap_rat_mono(nr, p2.y - p1.y, nl, dd);
        assert(false);
    }
    assert(nr * dd > nl * dd);
    assert(nr > nl) by (nonlinear_arith)
        requires
            nr * dd > nl * dd,
            dd > 0,
    ;
    assert(nr - nl == (p1.x - p0.x) * (dd - t)) by (nonlinear_arith)
        requires
            nl == p0.x * (p2.y - p0.y) + (p2.x - p0.x) * t,
            nr == p1.x * (p2.y - p1.y) + (p2.x - p1.x) * (t + p0.y - p1.y),
            p0.y == p1.y,
            dd == p2.y - p0.y,
    ;
    assert(p0.x != p1.x) by (nonlinear_arith)
        requires
            (p1.x - p0.x) * (dd - t) > 0,
    ;
    assert(bary_d(p0, p1, p2) == (p1.x - p0.x) * dd) by (nonlinear_arith)
        requires
            p0.y == p1.y,
            dd == p2.y - p0.y,
    ;
    assert((p1.x - p0.x) * dd != 0) by (nonlinear_arith)
        requires
            dd > 0,
            p0.x != p1.x,
    ;
}

/// A flat fill over a triangle of zero signed area shades no pixel, even
/// where its scan bounds would admit one: the zero denominator is guarded,
/// never divided by.
pub proof fn lemma_zero_area_no_shade<PS: PixelStage>(
    ps: PS,
    ls: ScreenPt, le: ScreenPt, rs: ScreenPt, re: ScreenPt,
    p0: ScreenPt, p1: ScreenPt, p2: ScreenPt,
    v0: Vertex, v1: Vertex, v2: Vertex,
    w: int, h: int, x: int, y: int,
)
    requires
        bary_d(p0, p1, p2) == 0,
    ensures
        flat_pixel(ps, ls, le, rs, re, p0, p1, p2, v0, v1, v2, w, h, x, y) is None,
{
}

} // verus!
