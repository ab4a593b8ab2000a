//! The multi-line fallback fill: tiling a region with fixed-height
//! placeholder lines, and the capability trait that lets any host surface
//! present that fill while its content is pending.

use vstd::arithmetic::div_mod::lemma_fundamental_div_mod;
use vstd::arithmetic::div_mod::lemma_fundamental_div_mod_converse_div;
use vstd::arithmetic::div_mod::lemma_mod_division_less_than_divisor;
use vstd::prelude::*;

use crate::geometry::Color;
use crate::geometry::Region;
use crate::output::output_in_region;
use crate::output::OutputModel;
use crate::output::Primitive;
use crate::output::PrimitiveModel;
use crate::output::RenderOutput;
use crate::output::RoundedRect;
use crate::render::CORNER_RADIUS;

verus! {

/// The height in units of one placeholder line.
pub const LINE_HEIGHT: i32 = 16;

/// The vertical gap in units between consecutive placeholder lines.
pub const LINE_GAP: i32 = 4;

/// The neutral fill color of a placeholder line.
pub open spec fn spec_line_color() -> Color {
    Color::spec_from_gray(220)
}

/// The `i`-th placeholder line of `region`: a full-width rounded rectangle
/// of height `LINE_HEIGHT`, `i` line-and-gap steps below the region's top.
pub open spec fn spec_fill_line(region: Region, i: int) -> RoundedRect {
    let y = region.top + i * (LINE_HEIGHT + LINE_GAP);
    RoundedRect {
        rect: Region {
            left: region.left,
            top: y as i32,
            right: region.right,
            bottom: (y + LINE_HEIGHT) as i32,
        },
        corner_radius: CORNER_RADIUS,
        fill: spec_line_color(),
    }
}

/// How many whole lines fit in `region` from the top down: lines are laid
/// out every `LINE_HEIGHT + LINE_GAP` units and a line is emitted only if
/// it ends on or above the region's bottom edge, which makes the count
/// `(height + LINE_GAP) / (LINE_HEIGHT + LINE_GAP)`, rounded down. A
/// degenerate region holds no lines.
pub open spec fn spec_fill_count(region: Region) -> int {
    if region.is_degenerate() {
        0
    } else {
        (region.height() + LINE_GAP) / ((LINE_HEIGHT + LINE_GAP) as int)
    }
}

/// What the default fill produces: the tiled lines, in top-to-bottom
/// order, and the whole region claimed for passive hover interaction.
pub open spec fn spec_fill(region: Region) -> OutputModel {
    OutputModel {
        primitives: Seq::new(
            spec_fill_count(region) as nat,
            |i: int| PrimitiveModel::RoundedRect(spec_fill_line(region, i)),
        ),
        claim: region,
    }
}

/// Tiles `region` with placeholder lines of height `LINE_HEIGHT` separated
/// by `LINE_GAP`, from the top down, never letting a line cross the
/// region's bottom edge; partial lines are not emitted.
pub fn skeleton_fill(region: Region) -> (out: RenderOutput)
    ensures
        out@ == spec_fill(region),
        output_in_region(out@, region),
{
    proof {
        lemma_fill_in_region(region);
    }
    let mut primitives: Vec<Primitive> = Vec::new();
    if !region.check_degenerate() {
        let step: i64 = (LINE_HEIGHT + LINE_GAP) as i64;
        let bottom_i: i64 = region.bottom as i64;
        let mut y: i64 = region.top as i64;
        while y + (LINE_HEIGHT as i64) <= bottom_i
            invariant
                !region.is_degenerate(),
                step == LINE_HEIGHT + LINE_GAP,
                bottom_i == region.bottom as int,
                y == region.top + primitives@.len() * (LINE_HEIGHT + LINE_GAP),
                (LINE_HEIGHT + LINE_GAP) * primitives@.len() <= region.height() + LINE_GAP,
                forall|i: int|
                    0 <= i < primitives@.len() ==> #[trigger] primitives@[i]
                        == Primitive::RoundedRect(spec_fill_line(region, i)),
            decreases bottom_i + LINE_GAP - y,
        {
            let ghost n = primitives@.len() as int;
            primitives.push(
                Primitive::RoundedRect(
                    RoundedRect {
                        rect: Region {
                            left: region.left,
                            top: y as i32,
                            right: region.right,
                            bottom: (y + (LINE_HEIGHT as i64)) as i32,
                        },
                        corner_radius: CORNER_RADIUS,
                        fill: Color::from_gray(220),
                    },
                ),
            );
            y = y + step;
            proof {
                assert(LINE_HEIGHT + LINE_GAP == 20);
                assert((n + 1) * 20int == n * 20 + 20) by (nonlinear_arith);
                assert(primitives@[n] == Primitive::RoundedRect(spec_fill_line(region, n)));
            }
        }
        proof {
            let n = primitives@.len() as int;
            let span = (LINE_HEIGHT + LINE_GAP) as int;
            let total = region.height() + LINE_GAP;
            assert(span * n <= total);
            assert(span * (n + 1) > total);
            lemma_fundamental_div_mod_converse_div(total, span, n, total - span * n);
            assert(n == spec_fill_count(region));
        }
    }
    let out = RenderOutput { primitives, claim: region };
    proof {
        assert(out@.primitives =~= spec_fill(region).primitives);
        assert(out@ =~= spec_fill(region));
    }
    out
}

/// Every line the fill emits lies within the region it tiles — in
/// particular no line's bottom edge exceeds the region's bottom — and has
/// strictly positive extent.
pub proof fn lemma_fill_in_region(region: Region)
    ensures
        output_in_region(spec_fill(region), region),
{
    let o = spec_fill(region);
    let span = (LINE_HEIGHT + LINE_GAP) as int;
    let count = spec_fill_count(region);
    if count > 0 {
        let total = region.height() + LINE_GAP;
        lemma_fundamental_div_mod(total, span);
        lemma_mod_division_less_than_divisor(total, span);
        assert(span * count <= total);
        assert forall|i: int| 0 <= i < o.primitives.len() implies crate::output::prim_in_region(
            #[trigger] o.primitives[i],
            region,
        ) && crate::output::prim_positive_extent(o.primitives[i]) by {
            assert(i * span >= 0) by (nonlinear_arith)
                requires
                    i >= 0,
                    span > 0;
            assert(i * span <= (count - 1) * span) by (nonlinear_arith)
                requires
                    i <= count - 1,
                    span > 0;
            assert((count - 1) * span == span * count - span) by (nonlinear_arith);
            assert(region.top + i * span + LINE_HEIGHT <= region.bottom);
        }
    }
}

/// The capability of a host surface to fill itself with a skeleton while
/// its real content is still pending.
///
/// The default look is the tiled line fill of `skeleton_fill`. A concrete
/// surface may override it for a different look, but every override must
/// keep its primitives within the region, give them positive extent, and
/// claim exactly the supplied region for passive hover interaction.
pub trait HasSkeleton {
    /// Fills `region` with placeholder primitives and claims it for
    /// passive hover interaction.
    fn fill_output(&self, region: Region) -> (out: RenderOutput)
        ensures
            out@.claim == region,
            output_in_region(out@, region),
        default_ensures
            out@ == spec_fill(region),
    {
        skeleton_fill(region)
    }
}

} // verus!
