//! The placeholder renderer: a pure function from a region, a shape
//! configuration and an elapsed-time sample to a list of drawable
//! primitives.
//!
//! The rectangle shape animates: a highlight band one fifth of the region
//! wide sweeps across it once per animation period, entering from the left
//! and leaving to the right, so the loop wraps with the band fully
//! off-screen on both sides. The square and circle shapes are static.

use vstd::arithmetic::div_mod::lemma_div_is_ordered;
use vstd::arithmetic::div_mod::lemma_div_multiples_vanish;
use vstd::arithmetic::div_mod::lemma_div_nonincreasing;
use vstd::arithmetic::div_mod::lemma_div_pos_is_pos;
use vstd::arithmetic::div_mod::lemma_fundamental_div_mod;
use vstd::arithmetic::div_mod::lemma_fundamental_div_mod_converse_div;
use vstd::arithmetic::div_mod::lemma_fundamental_div_mod_converse_mod;
use vstd::arithmetic::div_mod::lemma_mod_division_less_than_divisor;
use vstd::arithmetic::div_mod::lemma_mod_multiples_vanish;
use vstd::arithmetic::div_mod::lemma_multiply_divide_lt;
use vstd::arithmetic::mul::lemma_mul_is_commutative;
use vstd::arithmetic::mul::lemma_mul_is_distributive_add_other_way;
use vstd::arithmetic::mul::lemma_mul_nonnegative;
use vstd::arithmetic::mul::lemma_mul_strict_inequality;
use vstd::prelude::*;

use crate::geometry::clamp_i64;
use crate::geometry::spec_clamp;
use crate::geometry::Color;
use crate::geometry::Region;
use crate::output::Mesh;
use crate::output::MeshModel;
use crate::output::CircleShape;
use crate::output::OutputModel;
use crate::output::Primitive;
use crate::output::PrimitiveModel;
use crate::output::RenderOutput;
use crate::output::RoundedRect;
use crate::output::Vertex;

verus! {

/// The corner radius of the rounded rectangles the renderer emits.
pub const CORNER_RADIUS: u32 = 2;

/// The shape a placeholder takes within its region.
#[derive(Clone, Copy, Debug, PartialEq, Eq, Structural)]
pub enum SkeletonShapeType {
    /// A full-region rectangle with an animated shimmer band.
    Rectangle,
    /// A static centered square, as large as the region allows.
    Square,
    /// A static centered circle, as large as the region allows.
    Circle,
}

/// The one configuration error: the renderer rejects a configuration whose
/// animation period is zero rather than clamping it.
#[derive(Clone, Copy, Debug, PartialEq, Eq, Structural)]
pub enum SkeletonError {
    InvalidConfig,
}

/// A skeleton placeholder configuration. Immutable in use: a different
/// placeholder is a different value.
///
/// `animation_period_ms` is the length of one shimmer cycle in
/// milliseconds; zero is invalid and makes `render` return
/// `SkeletonError::InvalidConfig`.
#[derive(Clone, Copy, Debug, PartialEq, Eq, Structural)]
pub struct Skeleton {
    pub base_color: Color,
    pub highlight_color: Color,
    pub animation_period_ms: u32,
    pub shape_type: SkeletonShapeType,
}

impl Skeleton {
    /// The default configuration: light grays, a 1.5 second cycle, and the
    /// animated rectangle shape.
    pub open spec fn spec_default() -> Skeleton {
        Skeleton {
            base_color: Color::spec_from_gray(200),
            highlight_color: Color::spec_from_gray(230),
            animation_period_ms: 1500,
            shape_type: SkeletonShapeType::Rectangle,
        }
    }

    /// Builds the default configuration.
    pub fn new() -> (s: Skeleton)
        ensures
            s == Skeleton::spec_default(),
    {
        Skeleton::default()
    }
}

impl Default for Skeleton {
    /// Builds the default configuration.
    fn default() -> (s: Skeleton)
        ensures
            s == Skeleton::spec_default(),
    {
        Skeleton {
            base_color: Color::from_gray(200),
            highlight_color: Color::from_gray(230),
            animation_period_ms: 1500,
            shape_type: SkeletonShapeType::Rectangle,
        }
    }
}

/// Where the current time falls within the animation cycle, as the
/// numerator of the phase fraction `(time % period) / period`.
pub open spec fn spec_phase_num(time: int, period: int) -> int {
    time % period
}

/// How far the shimmer band's left edge has travelled from its start
/// position, `span * phase` rounded down, where `span` is the total sweep
/// distance of one cycle.
pub open spec fn spec_sweep_offset(time: int, period: int, span: int) -> int {
    spec_phase_num(time, period) * span / period
}

/// The width of the shimmer band: one fifth of the region's width.
pub open spec fn spec_shimmer_width(region: Region) -> int {
    region.width() / 5
}

/// The unclamped left edge of the shimmer band. At phase 0 the band ends
/// exactly at the region's left edge; just before the phase wraps it has
/// moved almost `width + band width` to the right, so it sits past the
/// region's right edge and the wrap is invisible.
pub open spec fn spec_shimmer_x(region: Region, period: int, time: int) -> int {
    region.left + spec_sweep_offset(time, period, region.width() + spec_shimmer_width(region))
        - spec_shimmer_width(region)
}

/// The visible left edge of the band: its left edge clamped to the region.
pub open spec fn spec_band_left(region: Region, period: int, time: int) -> int {
    spec_clamp(spec_shimmer_x(region, period, time), region.left as int, region.right as int)
}

/// The visible right edge of the band: its right edge clamped to the region.
pub open spec fn spec_band_right(region: Region, period: int, time: int) -> int {
    spec_clamp(
        spec_shimmer_x(region, period, time) + spec_shimmer_width(region),
        region.left as int,
        region.right as int,
    )
}

/// The shimmer strip mesh: two rows of four vertices at the cut lines
/// `left, band left, band right, right`, the outer pair in the base color
/// and the inner pair in the highlight color, triangulated as three quads.
pub open spec fn spec_shimmer_mesh(cfg: Skeleton, region: Region, time: int) -> MeshModel {
    let period = cfg.animation_period_ms as int;
    let x1 = spec_band_left(region, period, time) as i32;
    let x2 = spec_band_right(region, period, time) as i32;
    MeshModel {
        vertices: seq![
            Vertex { x: region.left, y: region.top, color: cfg.base_color },
            Vertex { x: x1, y: region.top, color: cfg.highlight_color },
            Vertex { x: x2, y: region.top, color: cfg.highlight_color },
            Vertex { x: region.right, y: region.top, color: cfg.base_color },
            Vertex { x: region.left, y: region.bottom, color: cfg.base_color },
            Vertex { x: x1, y: region.bottom, color: cfg.highlight_color },
            Vertex { x: x2, y: region.bottom, color: cfg.highlight_color },
            Vertex { x: region.right, y: region.bottom, color: cfg.base_color },
        ],
        indices: seq![
            0u32, 1u32, 5u32, 0u32, 5u32, 4u32,
            1u32, 2u32, 6u32, 1u32, 6u32, 5u32,
            2u32, 3u32, 7u32, 2u32, 7u32, 6u32,
        ],
    }
}

/// The static square placeholder: a rounded rectangle with side
/// `min(width, height)`, centered in the region.
pub open spec fn spec_square_prim(cfg: Skeleton, region: Region) -> RoundedRect {
    let side = if region.width() < region.height() {
        region.width()
    } else {
        region.height()
    };
    let l = region.left + (region.width() - side) / 2;
    let t = region.top + (region.height() - side) / 2;
    RoundedRect {
        rect: Region {
            left: l as i32,
            top: t as i32,
            right: (l + side) as i32,
            bottom: (t + side) as i32,
        },
        corner_radius: CORNER_RADIUS,
        fill: cfg.base_color,
    }
}

/// The static circle placeholder: radius `min(width, height) / 2`,
/// centered in the region.
pub open spec fn spec_circle_prim(cfg: Skeleton, region: Region) -> CircleShape {
    let radius = (if region.width() < region.height() {
        region.width()
    } else {
        region.height()
    }) / 2;
    CircleShape {
        center_x: (region.left + region.width() / 2) as i32,
        center_y: (region.top + region.height() / 2) as i32,
        radius: radius as i32,
        fill: cfg.base_color,
    }
}

/// What a successful render call returns, for any configuration with a
/// positive period.
///
/// A degenerate region produces no primitives and a zero-size interaction
/// claim. A circle whose computed radius rounds down to zero is not
/// emitted, so no primitive ever has zero extent.
pub open spec fn spec_render(cfg: Skeleton, region: Region, time: int) -> OutputModel {
    if region.is_degenerate() {
        OutputModel { primitives: Seq::empty(), claim: region.collapsed() }
    } else {
        match cfg.shape_type {
            SkeletonShapeType::Rectangle => OutputModel {
                primitives: seq![PrimitiveModel::Mesh(spec_shimmer_mesh(cfg, region, time))],
                claim: region,
            },
            SkeletonShapeType::Square => OutputModel {
                primitives: seq![PrimitiveModel::RoundedRect(spec_square_prim(cfg, region))],
                claim: region,
            },
            SkeletonShapeType::Circle => {
                let c = spec_circle_prim(cfg, region);
                if c.radius > 0 {
                    OutputModel { primitives: seq![PrimitiveModel::Circle(c)], claim: region }
                } else {
                    OutputModel { primitives: Seq::empty(), claim: region }
                }
            },
        }
    }
}

/// Computes the phase numerator `time_ms % period_ms`. The phase itself is
/// the fraction `tm / period_ms`, which always lies in `[0, 1)`.
pub fn shimmer_phase(time_ms: u64, period_ms: u32) -> (tm: u64)
    requires
        period_ms >= 1,
    ensures
        tm == spec_phase_num(time_ms as int, period_ms as int),
        0 <= tm < period_ms,
{
    proof {
        lemma_mod_division_less_than_divisor(time_ms as int, period_ms as int);
    }
    time_ms % (period_ms as u64)
}

/// The product of a phase numerator (below `u32::MAX + 1`) and a sweep span
/// (a nonnegative `i64`) fits comfortably in a `u128`.
proof fn lemma_mul_product_bound(a: int, b: int) by (nonlinear_arith)
    requires
        0 <= a < 0x100000000,
        0 <= b < 0x8000000000000000,
    ensures
        0 <= a * b < 0x800000000000000000000000,
{
}

impl Skeleton {
    /// Renders the placeholder for `region` at time `time_ms`
    /// (milliseconds since an arbitrary epoch).
    ///
    /// Rejecting policy: a zero animation period is refused with
    /// `InvalidConfig`; every other input succeeds, degenerate regions
    /// degrading to an empty output rather than failing.
    pub fn render(&self, region: Region, time_ms: u64) -> (r: Result<
        RenderOutput,
        SkeletonError,
    >)
        ensures
            r is Err <==> self.animation_period_ms == 0,
            r is Err ==> r == Err::<RenderOutput, SkeletonError>(SkeletonError::InvalidConfig),
            r matches Ok(out) ==> out@ == spec_render(*self, region, time_ms as int),
            r matches Ok(out) ==> crate::output::output_in_region(out@, region),
    {
        proof {
            if self.animation_period_ms >= 1 {
                lemma_render_in_region(*self, region, time_ms as int);
            }
        }
        if self.animation_period_ms == 0 {
            return Err(SkeletonError::InvalidConfig);
        }
        if region.check_degenerate() {
            let out = RenderOutput { primitives: Vec::new(), claim: region.make_collapsed() };
            proof {
                assert(out@ =~= spec_render(*self, region, time_ms as int));
            }
            return Ok(out);
        }
        match self.shape_type {
            SkeletonShapeType::Rectangle => Ok(self.render_shimmer(region, time_ms)),
            SkeletonShapeType::Square => Ok(self.render_square(region, time_ms)),
            SkeletonShapeType::Circle => Ok(self.render_circle(region, time_ms)),
        }
    }

    /// Builds the animated shimmer mesh for a non-degenerate region.
    fn render_shimmer(&self, region: Region, time_ms: u64) -> (out: RenderOutput)
        requires
            self.animation_period_ms >= 1,
            !region.is_degenerate(),
            self.shape_type is Rectangle,
        ensures
            out@ == spec_render(*self, region, time_ms as int),
    {
        let ghost t = time_ms as int;
        let period = self.animation_period_ms;
        let tm: u64 = shimmer_phase(time_ms, period);
        let left_i: i64 = region.left as i64;
        let right_i: i64 = region.right as i64;
        let w: i64 = right_i - left_i;
        let wh: i64 = w / 5;
        let span: i64 = w + wh;
        proof {
            assert(1 <= w);
            assert(0 <= wh <= w);
            lemma_mul_strict_inequality(tm as int, period as int, span as int);
            lemma_mul_is_commutative(period as int, span as int);
            lemma_multiply_divide_lt(tm as int * span as int, period as int, span as int);
            lemma_mul_product_bound(tm as int, span as int);
        }
        let prod: u128 = (tm as u128) * (span as u128);
        let offset: i64 = (prod / (period as u128)) as i64;
        let xs: i64 = left_i + offset - wh;
        let x1: i64 = clamp_i64(xs, left_i, right_i);
        let x2: i64 = clamp_i64(xs + wh, left_i, right_i);
        let x1_32: i32 = x1 as i32;
        let x2_32: i32 = x2 as i32;
        let mut vertices: Vec<Vertex> = Vec::new();
        vertices.push(Vertex { x: region.left, y: region.top, color: self.base_color });
        vertices.push(Vertex { x: x1_32, y: region.top, color: self.highlight_color });
        vertices.push(Vertex { x: x2_32, y: region.top, color: self.highlight_color });
        vertices.push(Vertex { x: region.right, y: region.top, color: self.base_color });
        vertices.push(Vertex { x: region.left, y: region.bottom, color: self.base_color });
        vertices.push(Vertex { x: x1_32, y: region.bottom, color: self.highlight_color });
        vertices.push(Vertex { x: x2_32, y: region.bottom, color: self.highlight_color });
        vertices.push(Vertex { x: region.right, y: region.bottom, color: self.base_color });
        let mut indices: Vec<u32> = Vec::new();
        indices.push(0);
        indices.push(1);
        indices.push(5);
        indices.push(0);
        indices.push(5);
        indices.push(4);
        indices.push(1);
        indices.push(2);
        indices.push(6);
        indices.push(1);
        indices.push(6);
        indices.push(5);
        indices.push(2);
        indices.push(3);
        indices.push(7);
        indices.push(2);
        indices.push(7);
        indices.push(6);
        let mesh = Mesh { vertices, indices };
        let mut primitives: Vec<Primitive> = Vec::new();
        primitives.push(Primitive::Mesh(mesh));
        let out = RenderOutput { primitives, claim: region };
        proof {
            assert(offset as int == spec_sweep_offset(t, period as int, span as int));
            assert(x1 as int == spec_band_left(region, period as int, t));
            assert(x2 as int == spec_band_right(region, period as int, t));
            let m = spec_shimmer_mesh(*self, region, t);
            assert(out@.primitives[0]->Mesh_0.vertices =~= m.vertices);
            assert(out@.primitives[0]->Mesh_0.indices =~= m.indices);
            assert(out@.primitives[0]->Mesh_0 =~= m);
            assert(out@.primitives =~= spec_render(*self, region, t).primitives);
            assert(out@ =~= spec_render(*self, region, t));
        }
        out
    }

    /// Builds the static square placeholder for a non-degenerate region.
    fn render_square(&self, region: Region, time_ms: u64) -> (out: RenderOutput)
        requires
            self.animation_period_ms >= 1,
            !region.is_degenerate(),
            self.shape_type is Square,
        ensures
            out@ == spec_render(*self, region, time_ms as int),
    {
        let left_i: i64 = region.left as i64;
        let top_i: i64 = region.top as i64;
        let w: i64 = region.right as i64 - left_i;
        let h: i64 = region.bottom as i64 - top_i;
        let side: i64 = if w < h { w } else { h };
        let sq_left: i64 = left_i + (w - side) / 2;
        let sq_top: i64 = top_i + (h - side) / 2;
        let rect = Region {
            left: sq_left as i32,
            top: sq_top as i32,
            right: (sq_left + side) as i32,
            bottom: (sq_top + side) as i32,
        };
        let prim = Primitive::RoundedRect(
            RoundedRect { rect, corner_radius: CORNER_RADIUS, fill: self.base_color },
        );
        let mut primitives: Vec<Primitive> = Vec::new();
        primitives.push(prim);
        let out = RenderOutput { primitives, claim: region };
        proof {
            assert(out@.primitives =~= spec_render(*self, region, time_ms as int).primitives);
            assert(out@ =~= spec_render(*self, region, time_ms as int));
        }
        out
    }

    /// Builds the static circle placeholder for a non-degenerate region.
    /// A radius that rounds down to zero emits nothing.
    fn render_circle(&self, region: Region, time_ms: u64) -> (out: RenderOutput)
        requires
            self.animation_period_ms >= 1,
            !region.is_degenerate(),
            self.shape_type is Circle,
        ensures
            out@ == spec_render(*self, region, time_ms as int),
    {
        let left_i: i64 = region.left as i64;
        let top_i: i64 = region.top as i64;
        let w: i64 = region.right as i64 - left_i;
        let h: i64 = region.bottom as i64 - top_i;
        let side: i64 = if w < h { w } else { h };
        let radius: i64 = side / 2;
        let cx: i64 = left_i + w / 2;
        let cy: i64 = top_i + h / 2;
        let mut primitives: Vec<Primitive> = Vec::new();
        if radius > 0 {
            primitives.push(
                Primitive::Circle(
                    CircleShape {
                        center_x: cx as i32,
                        center_y: cy as i32,
                        radius: radius as i32,
                        fill: self.base_color,
                    },
                ),
            );
        }
        let out = RenderOutput { primitives, claim: region };
        proof {
            assert(out@.primitives =~= spec_render(*self, region, time_ms as int).primitives);
            assert(out@ =~= spec_render(*self, region, time_ms as int));
        }
        out
    }
}

/// For nonnegative `a` and `b` and positive `d`, the quotient of the sum
/// lies between the sum of the quotients and that sum plus one.
proof fn lemma_div_sum_bounds(a: int, b: int, d: int)
    requires
        0 <= a,
        0 <= b,
        1 <= d,
    ensures
        a / d + b / d <= (a + b) / d <= a / d + b / d + 1,
{
    let qa = a / d;
    let qb = b / d;
    let ra = a % d;
    let rb = b % d;
    lemma_fundamental_div_mod(a, d);
    lemma_fundamental_div_mod(b, d);
    lemma_mod_division_less_than_divisor(a, d);
    lemma_mod_division_less_than_divisor(b, d);
    lemma_mul_is_distributive_add_other_way(d, qa, qb);
    lemma_mul_is_commutative(d, qa);
    lemma_mul_is_commutative(d, qb);
    assert(a + b == (qa + qb) * d + (ra + rb));
    if ra + rb < d {
        lemma_fundamental_div_mod_converse_div(a + b, d, qa + qb, ra + rb);
    } else {
        lemma_mul_is_distributive_add_other_way(d, qa + qb, 1);
        assert(a + b == (qa + qb + 1) * d + (ra + rb - d));
        lemma_fundamental_div_mod_converse_div(a + b, d, qa + qb + 1, ra + rb - d);
    }
}

/// Every primitive the renderer emits lies within the supplied region and
/// has strictly positive extent, for every region, configuration with a
/// positive period, and time sample.
pub proof fn lemma_render_in_region(cfg: Skeleton, region: Region, time: int)
    requires
        cfg.animation_period_ms >= 1,
    ensures
        crate::output::output_in_region(spec_render(cfg, region, time), region),
{
    if region.is_degenerate() {
        return;
    }
    let w = region.width();
    let h = region.height();
    match cfg.shape_type {
        SkeletonShapeType::Rectangle => {
            let m = spec_shimmer_mesh(cfg, region, time);
            assert(crate::output::prim_positive_extent(PrimitiveModel::Mesh(m))) by {
                assert(0 <= 3int < m.vertices.len() && m.vertices[3].x != m.vertices[0].x);
                assert(0 <= 4int < m.vertices.len() && m.vertices[4].y != m.vertices[0].y);
            }
        },
        SkeletonShapeType::Square => {
            let side = if w < h { w } else { h };
            lemma_div_pos_is_pos(w - side, 2);
            lemma_div_nonincreasing(w - side, 2);
            lemma_div_pos_is_pos(h - side, 2);
            lemma_div_nonincreasing(h - side, 2);
        },
        SkeletonShapeType::Circle => {
            let side = if w < h { w } else { h };
            lemma_div_is_ordered(side, w, 2);
            lemma_div_is_ordered(side, h, 2);
            lemma_fundamental_div_mod(w, 2);
            lemma_mod_division_less_than_divisor(w, 2);
            lemma_fundamental_div_mod(h, 2);
            lemma_mod_division_less_than_divisor(h, 2);
        },
    }
}

/// Shifting the time sample by any whole number of animation periods leaves
/// the rendered geometry unchanged.
pub proof fn lemma_render_periodic(cfg: Skeleton, region: Region, time: int, k: int)
    requires
        cfg.animation_period_ms >= 1,
    ensures
        spec_render(cfg, region, time + k * (cfg.animation_period_ms as int)) == spec_render(
            cfg,
            region,
            time,
        ),
{
    let p = cfg.animation_period_ms as int;
    lemma_mul_is_commutative(k, p);
    lemma_mod_multiples_vanish(k, time, p);
    assert(spec_phase_num(time + k * p, p) == spec_phase_num(time, p));
}

/// The renderer is deterministic: any two outputs of the same region,
/// configuration and time sample are the same value.
pub proof fn lemma_render_deterministic(
    cfg: Skeleton,
    region: Region,
    time: int,
    o1: OutputModel,
    o2: OutputModel,
)
    requires
        o1 == spec_render(cfg, region, time),
        o2 == spec_render(cfg, region, time),
    ensures
        o1 == o2,
{
}

/// The shimmer sweep is continuous across the whole cycle, including the
/// wrap: as the time sample advances by one millisecond, the band's sweep
/// offset advances by at most `span / period + 1`, one millisecond's worth
/// of travel rounded up. When the phase wraps to zero the offset restarts
/// after a full sweep of `span`, so the cyclic advance at the wrap is
/// `span - current offset`.
pub proof fn lemma_shimmer_continuity(span: int, period: int, time: int)
    requires
        1 <= period,
        0 <= span,
    ensures
        ({
            let tm = spec_phase_num(time, period);
            let cur = spec_sweep_offset(time, period, span);
            let next = if tm + 1 < period {
                spec_sweep_offset(time + 1, period, span)
            } else {
                span
            };
            0 <= next - cur <= span / period + 1
        }),
{
    let tm = spec_phase_num(time, period);
    let q = time / period;
    let cur = spec_sweep_offset(time, period, span);
    lemma_fundamental_div_mod(time, period);
    lemma_mod_division_less_than_divisor(time, period);
    lemma_mul_nonnegative(tm, span);
    lemma_div_pos_is_pos(tm * span, period);
    lemma_div_pos_is_pos(span, period);
    lemma_mul_is_distributive_add_other_way(span, tm, 1);
    assert((tm + 1) * span == tm * span + span);
    lemma_div_sum_bounds(tm * span, span, period);
    if tm + 1 < period {
        lemma_mul_is_commutative(period, q);
        assert(time + 1 == q * period + (tm + 1));
        lemma_fundamental_div_mod_converse_mod(time + 1, period, q, tm + 1);
        assert(spec_phase_num(time + 1, period) == tm + 1);
        lemma_div_is_ordered(tm * span, tm * span + span, period);
    } else {
        lemma_mul_is_commutative(period, span);
        lemma_div_multiples_vanish(span, period);
        assert((period * span) / period == span);
        assert(tm * span + span == period * span);
        lemma_div_is_ordered(tm * span, period * span, period);
    }
}

} // verus!
