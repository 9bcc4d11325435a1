use vstd::prelude::*;

verus! {

use crate::num::{round_div, clamped, iround_div, lemma_round_div_range, lemma_mul_bound};

/// Subpixel units per pixel: every screen-space coordinate is an integer
/// count of these units, so a coordinate `c` names the pixel-space position
/// `c / SCALE`. Attributes and clip-space positions use the same grid.
pub const SCALE: i64 = 256;

/// Half a pixel in subpixel units; pixel row `y` has its sampling line at
/// `y * SCALE + HALF_SCALE`.
pub const HALF_SCALE: i64 = 128;

/// Largest magnitude of a screen-space subpixel coordinate the rasterizer
/// works with; coordinates are clamped to this guard band when a triangle
/// projects far outside the target (a machine limit, not a visible bound:
/// it is over two hundred thousand pixels).
pub const COORD_MAX: i64 = 0x4000000;

/// Largest magnitude of a vertex attribute component (fixed-point, `SCALE`
/// units), a machine limit that keeps interpolation exact in 128 bits.
pub const ATTR_MAX: i64 = 0x4000000;

/// Largest magnitude of a clip-space component, a machine limit that keeps
/// the backface test exact in 128 bits.
pub const CLIP_MAX: i64 = 0x40000000;

/// Largest magnitude of a barycentric weight or denominator formed from
/// in-range screen coordinates.
pub const WEIGHT_MAX: i64 = 0x400000000000000;

/// Operand bound for the raw attribute sum and difference operations.
pub const VOP_MAX: i64 = 0x40000000000;

/// A screen-space point in subpixel units.
#[derive(Clone, Copy, PartialEq, Eq, Structural, Debug)]
pub struct ScreenPt {
    pub x: i64,
    pub y: i64,
}

impl ScreenPt {
    /// The point lies inside the rasterizer's guard band.
    pub open spec fn wf(self) -> bool {
        &&& -COORD_MAX <= self.x <= COORD_MAX
        &&& -COORD_MAX <= self.y <= COORD_MAX
    }
}

/// A clip-space position, the vertex stage's output: a homogeneous
/// 4-component vector in fixed-point `SCALE` units.
#[derive(Clone, Copy, PartialEq, Eq, Structural, Debug)]
pub struct ClipPos {
    pub x: i64,
    pub y: i64,
    pub z: i64,
    pub w: i64,
}

impl ClipPos {
    /// Every component lies inside the machine limit for exact projection.
    pub open spec fn wf(self) -> bool {
        &&& -CLIP_MAX <= self.x <= CLIP_MAX
        &&& -CLIP_MAX <= self.y <= CLIP_MAX
        &&& -CLIP_MAX <= self.z <= CLIP_MAX
        &&& -CLIP_MAX <= self.w <= CLIP_MAX
    }
}

/// A 3-component fixed-point vector (`SCALE` units per whole unit).
#[derive(Clone, Copy, PartialEq, Eq, Structural, Debug)]
pub struct Vec3 {
    pub x: i64,
    pub y: i64,
    pub z: i64,
}

/// A 2-component fixed-point vector (`SCALE` units per whole unit).
#[derive(Clone, Copy, PartialEq, Eq, Structural, Debug)]
pub struct Vec2 {
    pub x: i64,
    pub y: i64,
}

/// A vertex attribute bundle: a 3D position plus a texture coordinate.
/// It supports addition, subtraction and scalar scaling — the whole
/// capability barycentric interpolation needs — with every operation's
/// result stated exactly over the integer components.
#[derive(Clone, Copy, PartialEq, Eq, Structural, Debug)]
pub struct Vertex {
    pub position: Vec3,
    pub uv: Vec2,
}

impl Vertex {
    /// Every component lies inside the attribute machine limit.
    pub open spec fn wf(self) -> bool {
        &&& -ATTR_MAX <= self.position.x <= ATTR_MAX
        &&& -ATTR_MAX <= self.position.y <= ATTR_MAX
        &&& -ATTR_MAX <= self.position.z <= ATTR_MAX
        &&& -ATTR_MAX <= self.uv.x <= ATTR_MAX
        &&& -ATTR_MAX <= self.uv.y <= ATTR_MAX
    }

    /// All components bounded by `m` in magnitude.
    pub open spec fn bounded(self, m: int) -> bool {
        &&& -m <= self.position.x <= m
        &&& -m <= self.position.y <= m
        &&& -m <= self.position.z <= m
        &&& -m <= self.uv.x <= m
        &&& -m <= self.uv.y <= m
    }

    /// Componentwise sum.
    pub open spec fn spec_plus(self, o: Vertex) -> Vertex {
        Vertex {
            position: Vec3 {
                x: (self.position.x + o.position.x) as i64,
                y: (self.position.y + o.position.y) as i64,
                z: (self.position.z + o.position.z) as i64,
            },
            uv: Vec2 { x: (self.uv.x + o.uv.x) as i64, y: (self.uv.y + o.uv.y) as i64 },
        }
    }

    /// Componentwise difference.
    pub open spec fn spec_minus(self, o: Vertex) -> Vertex {
        Vertex {
            position: Vec3 {
                x: (self.position.x - o.position.x) as i64,
                y: (self.position.y - o.position.y) as i64,
                z: (self.position.z - o.position.z) as i64,
            },
            uv: Vec2 { x: (self.uv.x - o.uv.x) as i64, y: (self.uv.y - o.uv.y) as i64 },
        }
    }

    /// Componentwise scaling by the rational `tn / td`, rounded to the
    /// attribute grid.
    pub open spec fn spec_scaled(self, tn: int, td: int) -> Vertex {
        Vertex {
            position: Vec3 {
                x: round_div(self.position.x * tn, td) as i64,
                y: round_div(self.position.y * tn, td) as i64,
                z: round_div(self.position.z * tn, td) as i64,
            },
            uv: Vec2 {
                x: round_div(self.uv.x * tn, td) as i64,
                y: round_div(self.uv.y * tn, td) as i64,
            },
        }
    }

    /// Attribute addition, exact.
    pub fn plus(self, o: Vertex) -> (r: Vertex)
        requires
            self.bounded(VOP_MAX as int),
            o.bounded(VOP_MAX as int),
        ensures
            r == self.spec_plus(o),
    {
        Vertex {
            position: Vec3 {
                x: self.position.x + o.position.x,
                y: self.position.y + o.position.y,
                z: self.position.z + o.position.z,
            },
            uv: Vec2 { x: self.uv.x + o.uv.x, y: self.uv.y + o.uv.y },
        }
    }

    /// Attribute subtraction, exact.
    pub fn minus(self, o: Vertex) -> (r: Vertex)
        requires
            self.bounded(VOP_MAX as int),
            o.bounded(VOP_MAX as int),
        ensures
            r == self.spec_minus(o),
    {
        Vertex {
            position: Vec3 {
                x: self.position.x - o.position.x,
                y: self.position.y - o.position.y,
                z: self.position.z - o.position.z,
            },
            uv: Vec2 { x: self.uv.x - o.uv.x, y: self.uv.y - o.uv.y },
        }
    }

    /// Attribute scaling by the rational `tn / td`, each component rounded
    /// to the nearest grid point. The pipeline only ever scales by blend
    /// factors of magnitude at most one, which keeps the result exact in
    /// the component type.
    pub fn scaled(self, tn: i64, td: i64) -> (r: Vertex)
        requires
            self.bounded(VOP_MAX as int),
            0 < td,
            -td <= tn <= td,
        ensures
            r == self.spec_scaled(tn as int, td as int),
            r.bounded(VOP_MAX as int),
    {
        Vertex {
            position: Vec3 {
                x: scale_comp(self.position.x, tn, td),
                y: scale_comp(self.position.y, tn, td),
                z: scale_comp(self.position.z, tn, td),
            },
            uv: Vec2 { x: scale_comp(self.uv.x, tn, td), y: scale_comp(self.uv.y, tn, td) },
        }
    }
}

/// One component of `Vertex::scaled`: `round(a * tn / td)`.
fn scale_comp(a: i64, tn: i64, td: i64) -> (r: i64)
    requires
        -VOP_MAX <= a <= VOP_MAX,
        -td <= tn <= td,
        0 < td,
    ensures
        r == round_div(a * tn, td as int),
        -VOP_MAX <= r <= VOP_MAX,
{
    proof {
        lemma_mul_bound(a as int, tn as int, VOP_MAX as int, i64::MAX as int);
        assert(-(VOP_MAX as int) * td <= a as int * tn as int <= (VOP_MAX as int) * td)
            by (nonlinear_arith)
            requires
                -VOP_MAX <= a <= VOP_MAX,
                -td <= tn <= td,
                td > 0,
        ;
        lemma_round_div_range(a as int * tn as int, td as int, -(VOP_MAX as int), VOP_MAX as int);
    }
    let q = iround_div((a as i128) * (tn as i128), td as i128);
    q as i64
}

/// The affine blend `a + (b - a) * tn / td`, one component at a time, with a
/// single rounding; for `0 <= tn <= td` the result stays between `a` and `b`.
pub open spec fn spec_lerp_comp(a: int, b: int, tn: int, td: int) -> int {
    a + round_div((b - a) * tn, td)
}

fn lerp_comp(a: i64, b: i64, tn: i64, td: i64) -> (r: i64)
    requires
        -ATTR_MAX <= a <= ATTR_MAX,
        -ATTR_MAX <= b <= ATTR_MAX,
        0 <= tn <= td,
        0 < td,
    ensures
        r == spec_lerp_comp(a as int, b as int, tn as int, td as int),
        -ATTR_MAX <= r <= ATTR_MAX,
{
    let diff = b - a;
    proof {
        let n = diff as int * tn as int;
        lemma_mul_bound(diff as int, tn as int, 2 * ATTR_MAX as int, i64::MAX as int);
        if diff >= 0 {
            assert(0 <= n <= diff * (td as int)) by (nonlinear_arith)
                requires
                    diff >= 0,
                    0 <= tn <= td,
                    n == diff as int * tn as int,
            ;
            lemma_round_div_range(n, td as int, 0, diff as int);
        } else {
            assert(diff * (td as int) <= n <= 0) by (nonlinear_arith)
                requires
                    diff < 0,
                    0 <= tn <= td,
                    n == diff as int * tn as int,
            ;
            lemma_round_div_range(n, td as int, diff as int, 0);
        }
    }
    let q = iround_div((diff as i128) * (tn as i128), td as i128);
    a + (q as i64)
}

/// The affine blend of two attribute bundles: `a + (b - a) * tn / td` with
/// one rounding per component; used to derive the synthetic split vertex of
/// a general triangle.
pub open spec fn spec_vertex_lerp(a: Vertex, b: Vertex, tn: int, td: int) -> Vertex {
    Vertex {
        position: Vec3 {
            x: spec_lerp_comp(a.position.x as int, b.position.x as int, tn, td) as i64,
            y: spec_lerp_comp(a.position.y as int, b.position.y as int, tn, td) as i64,
            z: spec_lerp_comp(a.position.z as int, b.position.z as int, tn, td) as i64,
        },
        uv: Vec2 {
            x: spec_lerp_comp(a.uv.x as int, b.uv.x as int, tn, td) as i64,
            y: spec_lerp_comp(a.uv.y as int, b.uv.y as int, tn, td) as i64,
        },
    }
}

pub fn vertex_lerp(a: Vertex, b: Vertex, tn: i64, td: i64) -> (r: Vertex)
    requires
        a.wf(),
        b.wf(),
        0 <= tn <= td,
        0 < td,
    ensures
        r == spec_vertex_lerp(a, b, tn as int, td as int),
        r.wf(),
{
    Vertex {
        position: Vec3 {
            x: lerp_comp(a.position.x, b.position.x, tn, td),
            y: lerp_comp(a.position.y, b.position.y, tn, td),
            z: lerp_comp(a.position.z, b.position.z, tn, td),
        },
        uv: Vec2 {
            x: lerp_comp(a.uv.x, b.uv.x, tn, td),
            y: lerp_comp(a.uv.y, b.uv.y, tn, td),
        },
    }
}

/// One component of barycentric interpolation: the weighted sum
/// `a0*w0 + a1*w1 + a2*w2` divided by `d` with a single rounding, then
/// clamped to the attribute range. Interpolating three equal components
/// with weights summing to `d` therefore returns exactly that component.
pub open spec fn spec_interp_comp(a0: int, a1: int, a2: int, w0: int, w1: int, w2: int, d: int) -> int {
    let n = a0 * w0 + a1 * w1 + a2 * w2;
    let q = if d > 0 {
        round_div(n, d)
    } else {
        round_div(-n, -d)
    };
    clamped(q, -(ATTR_MAX as int), ATTR_MAX as int)
}

fn interp_comp(a0: i64, a1: i64, a2: i64, w0: i64, w1: i64, w2: i64, d: i64) -> (r: i64)
    requires
        -ATTR_MAX <= a0 <= ATTR_MAX,
        -ATTR_MAX <= a1 <= ATTR_MAX,
        -ATTR_MAX <= a2 <= ATTR_MAX,
        -WEIGHT_MAX <= w0 <= WEIGHT_MAX,
        -WEIGHT_MAX <= w1 <= WEIGHT_MAX,
        -WEIGHT_MAX <= w2 <= WEIGHT_MAX,
        d != 0,
        -WEIGHT_MAX <= d <= WEIGHT_MAX,
    ensures
        r == spec_interp_comp(a0 as int, a1 as int, a2 as int, w0 as int, w1 as int, w2 as int, d as int),
{
    proof {
        lemma_mul_bound(a0 as int, w0 as int, ATTR_MAX as int, WEIGHT_MAX as int);
        lemma_mul_bound(a1 as int, w1 as int, ATTR_MAX as int, WEIGHT_MAX as int);
        lemma_mul_bound(a2 as int, w2 as int, ATTR_MAX as int, WEIGHT_MAX as int);
    }
    let n: i128 = (a0 as i128) * (w0 as i128) + (a1 as i128) * (w1 as i128)
        + (a2 as i128) * (w2 as i128);
    let q: i128 = if d > 0 {
        iround_div(n, d as i128)
    } else {
        iround_div(-n, -(d as i128))
    };
    if q < -(ATTR_MAX as i128) {
        -ATTR_MAX
    } else if q > ATTR_MAX as i128 {
        ATTR_MAX
    } else {
        q as i64
    }
}

/// Barycentric interpolation of an attribute bundle with integer weights
/// `w0, w1, w2` over the common denominator `d`.
pub open spec fn spec_interpolate(v0: Vertex, v1: Vertex, v2: Vertex, w0: int, w1: int, w2: int, d: int) -> Vertex {
    Vertex {
        position: Vec3 {
            x: spec_interp_comp(
                v0.position.x as int, v1.position.x as int, v2.position.x as int, w0, w1, w2, d,
            ) as i64,
            y: spec_interp_comp(
                v0.position.y as int, v1.position.y as int, v2.position.y as int, w0, w1, w2, d,
            ) as i64,
            z: spec_interp_comp(
                v0.position.z as int, v1.position.z as int, v2.position.z as int, w0, w1, w2, d,
            ) as i64,
        },
        uv: Vec2 {
            x: spec_interp_comp(v0.uv.x as int, v1.uv.x as int, v2.uv.x as int, w0, w1, w2, d) as i64,
            y: spec_interp_comp(v0.uv.y as int, v1.uv.y as int, v2.uv.y as int, w0, w1, w2, d) as i64,
        },
    }
}

pub fn interpolate(v0: &Vertex, v1: &Vertex, v2: &Vertex, w0: i64, w1: i64, w2: i64, d: i64) -> (r: Vertex)
    requires
        v0.wf(),
        v1.wf(),
        v2.wf(),
        -WEIGHT_MAX <= w0 <= WEIGHT_MAX,
        -WEIGHT_MAX <= w1 <= WEIGHT_MAX,
        -WEIGHT_MAX <= w2 <= WEIGHT_MAX,
        d != 0,
        -WEIGHT_MAX <= d <= WEIGHT_MAX,
    ensures
        r == spec_interpolate(*v0, *v1, *v2, w0 as int, w1 as int, w2 as int, d as int),
        r.wf(),
{
    Vertex {
        position: Vec3 {
            x: interp_comp(v0.position.x, v1.position.x, v2.position.x, w0, w1, w2, d),
            y: interp_comp(v0.position.y, v1.position.y, v2.position.y, w0, w1, w2, d),
            z: interp_comp(v0.position.z, v1.position.z, v2.position.z, w0, w1, w2, d),
        },
        uv: Vec2 {
            x: interp_comp(v0.uv.x, v1.uv.x, v2.uv.x, w0, w1, w2, d),
            y: interp_comp(v0.uv.y, v1.uv.y, v2.uv.y, w0, w1, w2, d),
        },
    }
}

} // verus!
