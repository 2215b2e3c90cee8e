//! The raster render planner.  A render request carries a surface
//! handle, a sample container and a shape; this module validates the
//! request and turns it into a plan: clear the surface, draw one
//! unit-sized filled rectangle per pixel in flat sample order (first
//! axis varying fastest), and present once.  Nothing is drawn for a
//! rejected request, and executing a plan replaces the surface content
//! outright, so repeating a render never accumulates.
//!
//! The caller that owns the drawing surface executes the plan; a
//! surface that cannot be acquired, cleared or presented is reported
//! through the surface-side variants of [`RenderError`].

use vstd::prelude::*;

use crate::bits::nan_eq;
use crate::color::{clamp_unit_spec, lemma_clamp_nan_eq, map_color, GreyColor};
use crate::data::{lemma_shape_product_two, DataContainer};
use crate::normalize::{
    intensity_seq, intensity_spec, lemma_fold_max_nan_eq, lemma_fold_min_nan_eq, norm_max_spec,
    norm_min_spec, normalize_samples, scan_max, scan_min, spec_fold_max, spec_fold_min,
};
use vstd::arithmetic::div_mod::{
    lemma_div_pos_is_pos, lemma_fundamental_div_mod, lemma_mod_bound,
};

verus! {

/// Why a render request was rejected or a draw failed.
#[derive(Clone, Copy, Debug, PartialEq, Eq, Structural)]
pub enum RenderError {
    /// The requested shape differs from the container's declared axes.
    ShapeMismatch,
    /// The shape does not describe a two-dimensional image.
    NotTwoDimensional,
    /// A requested axis is zero, so there is nothing to draw.
    EmptyAxis,
    /// The drawing surface could not be found or acquired.
    SurfaceUnavailable,
    /// The surface's coordinate system could not be built.
    CoordinateSystem,
    /// Clearing, drawing on or presenting the surface failed.
    SurfaceWrite,
}

/// One filled unit rectangle of the plan, covering the pixel square
/// from `(x, y)` to `(x + 1, y + 1)`.
#[derive(Clone, Copy, Debug, PartialEq, Eq, Structural)]
pub struct PixelRect {
    /// Column, counted from the left.
    pub x: usize,
    /// Row, counted from the top.
    pub y: usize,
    /// The fill color.
    pub color: GreyColor,
}

/// A validated drawing plan: clear, draw every rectangle in order,
/// present once.  The two scan pairs are the diagnostics the caller
/// logs: the extremes of the log-transformed data and of the rescaled
/// intensity field.
#[derive(Clone, Debug, PartialEq)]
pub struct RenderPlan {
    /// Surface width in pixels.
    pub width: usize,
    /// Surface height in pixels.
    pub height: usize,
    /// One rectangle per pixel, in flat sample order.
    pub rects: Vec<PixelRect>,
    /// Scan minimum of the log-transformed samples.
    pub log_min: u64,
    /// Scan maximum of the log-transformed samples.
    pub log_max: u64,
    /// Scan minimum of the intensity field.
    pub intensity_min: u64,
    /// Scan maximum of the intensity field.
    pub intensity_max: u64,
}

/// A render request is acceptable when the shape is the container's own
/// declared axes, is two-dimensional, and has no empty axis.
pub open spec fn render_request_ok(data: DataContainer, shape: Seq<usize>) -> bool {
    &&& shape == data.shape@
    &&& shape.len() == 2
    &&& shape[0] > 0
    &&& shape[1] > 0
}

/// The error a rejected request reports: a mismatched shape first, then
/// a wrong dimension count, then an empty axis.
pub open spec fn render_error_spec(data: DataContainer, shape: Seq<usize>) -> RenderError {
    if shape != data.shape@ {
        RenderError::ShapeMismatch
    } else if shape.len() != 2 {
        RenderError::NotTwoDimensional
    } else {
        RenderError::EmptyAxis
    }
}

/// The rectangle the plan holds for flat sample index `i`.
pub open spec fn rect_spec(s: Seq<u64>, w: int, i: int) -> PixelRect {
    PixelRect {
        x: (i % w) as usize,
        y: (i / w) as usize,
        color: GreyColor { lightness: clamp_unit_spec(intensity_spec(s, i)) },
    }
}

/// What an accepted plan holds, pinned pixel by pixel.
pub open spec fn plan_ok(data: DataContainer, shape: Seq<usize>, p: RenderPlan) -> bool {
    let s = data.samples@;
    &&& p.width == shape[0]
    &&& p.height == shape[1]
    &&& p.rects@.len() == s.len()
    &&& (forall|i: int| 0 <= i < s.len() ==> p.rects@[i] == rect_spec(s, p.width as int, i))
    &&& p.log_min == norm_min_spec(s)
    &&& p.log_max == norm_max_spec(s)
    &&& p.intensity_min == spec_fold_min(intensity_seq(s))
    &&& p.intensity_max == spec_fold_max(intensity_seq(s))
}

/// The full contract of [`render`]: an accepted request yields exactly
/// the pinned plan, a rejected one exactly the pinned error.
pub open spec fn render_post(
    data: DataContainer,
    shape: Seq<usize>,
    r: Result<RenderPlan, RenderError>,
) -> bool {
    match r {
        Result::Ok(p) => render_request_ok(data, shape) && plan_ok(data, shape, p),
        Result::Err(e) => !render_request_ok(data, shape) && e == render_error_spec(data, shape),
    }
}

/// A flat index below `w * h` splits into a column below `w` and a row
/// below `h`.
proof fn lemma_flat_index(i: int, w: int, h: int)
    requires
        w >= 1,
        h >= 1,
        0 <= i < w * h,
    ensures
        0 <= i % w < w,
        0 <= i / w < h,
{
    lemma_fundamental_div_mod(i, w);
    lemma_mod_bound(i, w);
    lemma_div_pos_is_pos(i, w);
    let q = i / w;
    if q >= h {
        assert(q >= h && w >= 1 ==> w * q >= w * h) by (nonlinear_arith);
    }
}

fn shapes_equal(a: &Vec<usize>, b: &Vec<usize>) -> (r: bool)
    ensures
        r == (a@ == b@),
{
    if a.len() != b.len() {
        return false;
    }
    let mut i: usize = 0;
    while i < a.len()
        invariant
            a@.len() == b@.len(),
            0 <= i <= a@.len(),
            forall|j: int| 0 <= j < i ==> a@[j] == b@[j],
        decreases a@.len() - i,
    {
        if a[i] != b[i] {
            return false;
        }
        i = i + 1;
    }
    proof {
        assert(a@ =~= b@);
    }
    true
}

/// Validates a render request and builds its drawing plan.  A request
/// whose shape is not the container's own axes is rejected before
/// anything would be drawn; an accepted request covers the full
/// two-dimensional domain exactly once, every color already clamped.
pub fn render(data: &DataContainer, shape: &Vec<usize>) -> (r: Result<RenderPlan, RenderError>)
    requires
        data.wf(),
    ensures
        render_post(*data, shape@, r),
        r is Ok <==> render_request_ok(*data, shape@),
        r matches Ok(p) ==> forall|i: int|
            0 <= i < p.rects@.len() ==> (#[trigger] p.rects@[i]).color.wf()
                && p.rects@[i].x < p.width && p.rects@[i].y < p.height,
{
    if !shapes_equal(shape, &data.shape) {
        return Err(RenderError::ShapeMismatch);
    }
    if shape.len() != 2 {
        return Err(RenderError::NotTwoDimensional);
    }
    let w = shape[0];
    let h = shape[1];
    if w == 0 || h == 0 {
        return Err(RenderError::EmptyAxis);
    }
    proof {
        lemma_shape_product_two(shape@);
    }
    let (field, log_min, log_max) = normalize_samples(&data.samples);
    proof {
        lemma_fold_min_nan_eq(field@, intensity_seq(data.samples@));
        lemma_fold_max_nan_eq(field@, intensity_seq(data.samples@));
    }
    let intensity_min = scan_min(&field);
    let intensity_max = scan_max(&field);
    let n = field.len();
    let mut rects: Vec<PixelRect> = Vec::new();
    let mut i: usize = 0;
    while i < n
        invariant
            n == field@.len(),
            field@.len() == data.samples@.len(),
            data.samples@.len() == w * h,
            w >= 1,
            h >= 1,
            forall|j: int|
                0 <= j < n ==> nan_eq(#[trigger] field@[j], intensity_spec(data.samples@, j)),
            0 <= i <= n,
            rects@.len() == i,
            forall|j: int|
                0 <= j < i ==> #[trigger] rects@[j] == rect_spec(data.samples@, w as int, j)
                    && rects@[j].x < w && rects@[j].y < h,
        decreases n - i,
    {
        let x = i % w;
        let y = i / w;
        proof {
            lemma_flat_index(i as int, w as int, h as int);
            lemma_clamp_nan_eq(field@[i as int], intensity_spec(data.samples@, i as int));
        }
        let color = map_color(field[i]);
        rects.push(PixelRect { x, y, color });
        i = i + 1;
    }
    Ok(
        RenderPlan {
            width: w,
            height: h,
            rects,
            log_min,
            log_max,
            intensity_min,
            intensity_max,
        },
    )
}

/// Two render outcomes carry the same surface content: the same error,
/// or plans equal field by field and rectangle by rectangle.
pub open spec fn render_results_equal(
    r1: Result<RenderPlan, RenderError>,
    r2: Result<RenderPlan, RenderError>,
) -> bool {
    match (r1, r2) {
        (Result::Ok(p1), Result::Ok(p2)) => {
            &&& p1.width == p2.width
            &&& p1.height == p2.height
            &&& p1.rects@ == p2.rects@
            &&& p1.log_min == p2.log_min
            &&& p1.log_max == p2.log_max
            &&& p1.intensity_min == p2.intensity_min
            &&& p1.intensity_max == p2.intensity_max
        },
        (Result::Err(e1), Result::Err(e2)) => e1 == e2,
        _ => false,
    }
}

/// Rendering is idempotent: two renders of identical inputs produce the
/// same final surface content, with no accumulation from the first
/// draw, because every outcome that meets [`render`]'s contract is the
/// same outcome.
pub proof fn lemma_render_deterministic(
    data: DataContainer,
    shape: Seq<usize>,
    r1: Result<RenderPlan, RenderError>,
    r2: Result<RenderPlan, RenderError>,
)
    requires
        render_post(data, shape, r1),
        render_post(data, shape, r2),
    ensures
        render_results_equal(r1, r2),
{
    match (r1, r2) {
        (Result::Ok(p1), Result::Ok(p2)) => {
            assert(p1.rects@ =~= p2.rects@);
        },
        _ => {},
    }
}

} // verus!
