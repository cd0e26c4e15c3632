//! From a cursor position on a viewport to a pick point in normalized device
//! coordinates, and the rules that decide whether a ray cast can be made.
use vstd::prelude::*;

verus! {

/// The size of the window that the camera renders into, in pixels.
#[derive(Clone, Copy, Debug, PartialEq, Eq, Structural)]
pub struct Viewport {
    pub width: u32,
    pub height: u32,
}

/// A cursor position in pixels, with the origin at the bottom-left corner of
/// the viewport and `y` growing upwards.
#[derive(Clone, Copy, Debug, PartialEq, Eq, Structural)]
pub struct Pixel {
    pub x: u32,
    pub y: u32,
}

/// A point in normalized device coordinates, held exactly as two fractions:
/// the point is `(x_num / x_den, y_num / y_den)`.
///
/// Inside the viewport both coordinates lie in `[-1, 1]`.
#[derive(Clone, Copy, Debug, PartialEq, Eq, Structural)]
pub struct NdcPoint {
    pub x_num: i64,
    pub x_den: i64,
    pub y_num: i64,
    pub y_den: i64,
}

/// Why a ray cast was dropped.
#[derive(Clone, Copy, Debug, PartialEq, Eq, Structural)]
pub enum CastError {
    /// The projection matrix cannot be inverted.
    DegenerateCamera,
    /// The viewport has a zero width or height.
    InvalidViewport,
}

impl Viewport {
    pub open spec fn is_valid(self) -> bool {
        self.width > 0 && self.height > 0
    }
}

impl NdcPoint {
    /// Both denominators are positive, so the point is well defined.
    pub open spec fn is_proper(self) -> bool {
        self.x_den > 0 && self.y_den > 0
    }

    /// `self` and `other` denote the same point.
    pub open spec fn same_point(self, other: NdcPoint) -> bool {
        self.x_num * other.x_den == other.x_num * self.x_den
            && self.y_num * other.y_den == other.y_num * self.y_den
    }
}

/// The pixel used when the cursor is not over the window.
pub open spec fn fallback_pixel() -> Pixel {
    Pixel { x: 0, y: 0 }
}

/// The cursor position that a cast uses: the cursor, or the fallback pixel
/// when there is none.
pub open spec fn resolved_cursor(cursor: Option<Pixel>) -> Pixel {
    match cursor {
        Some(p) => p,
        None => fallback_pixel(),
    }
}

/// `2 * (p / extent) - 1`, written as the fraction `(2 * p - extent) / extent`.
pub open spec fn ndc_numerator(p: int, extent: int) -> int {
    2 * p - extent
}

/// The pick point of pixel `p` on viewport `v`.
pub open spec fn ndc_of(v: Viewport, p: Pixel) -> NdcPoint {
    NdcPoint {
        x_num: ndc_numerator(p.x as int, v.width as int) as i64,
        x_den: v.width as i64,
        y_num: ndc_numerator(p.y as int, v.height as int) as i64,
        y_den: v.height as i64,
    }
}

/// What a cast request yields for a viewport, a cursor that may be missing and
/// a camera whose projection is invertible or not.
pub open spec fn cast_outcome(v: Viewport, cursor: Option<Pixel>, projection_invertible: bool) -> Result<NdcPoint, CastError> {
    if !projection_invertible {
        Err(CastError::DegenerateCamera)
    } else if !v.is_valid() {
        Err(CastError::InvalidViewport)
    } else {
        Ok(ndc_of(v, resolved_cursor(cursor)))
    }
}

/// Normalized device coordinates of pixel `p` on viewport `v`:
/// `x = 2 * (p.x / width) - 1` and `y = 2 * (p.y / height) - 1`, exactly.
pub fn ndc_from_pixel(v: Viewport, p: Pixel) -> (r: NdcPoint)
    requires
        v.is_valid(),
    ensures
        r == ndc_of(v, p),
        r.is_proper(),
        r.x_num == 2 * p.x - v.width,
        r.y_num == 2 * p.y - v.height,
{
    let x_num: i64 = 2 * (p.x as i64) - (v.width as i64);
    let y_num: i64 = 2 * (p.y as i64) - (v.height as i64);
    NdcPoint { x_num, x_den: v.width as i64, y_num, y_den: v.height as i64 }
}

/// Decides a ray cast: the pick point to unproject, or why the cast is dropped.
///
/// A camera whose projection cannot be inverted gives `DegenerateCamera`; else
/// a viewport with a zero side gives `InvalidViewport`; else the result is the
/// pick point of the cursor, where a missing cursor counts as pixel `(0, 0)`.
pub fn cast_request(v: Viewport, cursor: Option<Pixel>, projection_invertible: bool) -> (r: Result<NdcPoint, CastError>)
    ensures
        r == cast_outcome(v, cursor, projection_invertible),
        r is Err <==> (!projection_invertible || !v.is_valid()),
        r == Err::<NdcPoint, CastError>(CastError::DegenerateCamera) <==> !projection_invertible,
        r is Ok ==> r->Ok_0.is_proper(),
{
    if !projection_invertible {
        return Err(CastError::DegenerateCamera);
    }
    if v.width == 0 || v.height == 0 {
        return Err(CastError::InvalidViewport);
    }
    let p = match cursor {
        Some(p) => p,
        None => Pixel { x: 0, y: 0 },
    };
    Ok(ndc_from_pixel(v, p))
}

/// Scaling the viewport and the cursor by two gives the same pick point, so
/// the cast ray does not change.
pub proof fn lemma_scale_invariance(v: Viewport, p: Pixel, v2: Viewport, p2: Pixel, projection_invertible: bool)
    requires
        v2.width == 2 * v.width,
        v2.height == 2 * v.height,
        p2.x == 2 * p.x,
        p2.y == 2 * p.y,
    ensures
        cast_outcome(v2, Some(p2), projection_invertible) is Ok
            <==> cast_outcome(v, Some(p), projection_invertible) is Ok,
        cast_outcome(v2, Some(p2), projection_invertible) is Ok ==>
            cast_outcome(v2, Some(p2), projection_invertible)->Ok_0.same_point(
                cast_outcome(v, Some(p), projection_invertible)->Ok_0),
{
    let a = ndc_of(v2, p2);
    let b = ndc_of(v, p);
    assert(a.x_num == 2 * b.x_num && a.x_den == 2 * b.x_den);
    assert(a.y_num == 2 * b.y_num && a.y_den == 2 * b.y_den);
    assert(a.x_num * b.x_den == b.x_num * a.x_den) by (nonlinear_arith)
        requires a.x_num == 2 * b.x_num, a.x_den == 2 * b.x_den;
    assert(a.y_num * b.y_den == b.y_num * a.y_den) by (nonlinear_arith)
        requires a.y_num == 2 * b.y_num, a.y_den == 2 * b.y_den;
}

/// A camera whose projection cannot be inverted always gives
/// `DegenerateCamera`, whatever the viewport and the cursor, and never a pick
/// point.
pub proof fn lemma_degenerate_guard(v: Viewport, cursor: Option<Pixel>)
    ensures
        cast_outcome(v, cursor, false) == Err::<NdcPoint, CastError>(CastError::DegenerateCamera),
{
}

/// A missing cursor gives the same outcome as a click at pixel `(0, 0)`.
pub proof fn lemma_fallback_cursor(v: Viewport, projection_invertible: bool)
    ensures
        cast_outcome(v, None, projection_invertible)
            == cast_outcome(v, Some(Pixel { x: 0, y: 0 }), projection_invertible),
{
}

/// A cursor inside a valid viewport gives a pick point in `[-1, 1]` on both
/// axes.
pub proof fn lemma_pick_in_range(v: Viewport, p: Pixel)
    requires
        v.is_valid(),
        p.x <= v.width,
        p.y <= v.height,
    ensures
        -ndc_of(v, p).x_den <= ndc_of(v, p).x_num <= ndc_of(v, p).x_den,
        -ndc_of(v, p).y_den <= ndc_of(v, p).y_num <= ndc_of(v, p).y_den,
{
}

/// On a valid viewport the pixel at its exact centre is the centre of
/// normalized device coordinates.
pub proof fn lemma_centre_pixel(v: Viewport, p: Pixel)
    requires
        v.is_valid(),
        2 * p.x == v.width,
        2 * p.y == v.height,
    ensures
        ndc_of(v, p).x_num == 0,
        ndc_of(v, p).y_num == 0,
{
}

} // verus!
