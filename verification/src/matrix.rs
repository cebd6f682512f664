//! Affine transforms and the path-space transform: the matrix that
//! neutralizes a shape's own rotation, scale and skew so that path geometry
//! and boolean path operations are evaluated in the shape's local,
//! axis-aligned frame, anchored at the center of its bounds.

use crate::math::Rect;
use vstd::prelude::*;

verus! {

/// A 2D affine transform in the standard 6-parameter form: it maps a point
/// `(x, y)` to `(a*x + c*y + e, b*x + d*y + f)`. Entries are plain integers
/// in the host's fixed-point encoding.
#[derive(Debug, Clone, Copy, PartialEq, Eq, Structural)]
pub struct Matrix {
    pub a: i32,
    pub b: i32,
    pub c: i32,
    pub d: i32,
    pub e: i32,
    pub f: i32,
}

impl Matrix {
    /// The identity transform.
    pub fn identity() -> (r: Matrix)
        ensures
            r == (Matrix { a: 1, b: 0, c: 0, d: 1, e: 0, f: 0 }),
    {
        Matrix { a: 1, b: 0, c: 0, d: 1, e: 0, f: 0 }
    }

    /// Builds a transform from its six parameters.
    pub fn new(a: i32, b: i32, c: i32, d: i32, e: i32, f: i32) -> (r: Matrix)
        ensures
            r == (Matrix { a, b, c, d, e, f }),
    {
        Matrix { a, b, c, d, e, f }
    }

    /// The same transform with its translation component stripped: rotation,
    /// scale and skew only.
    pub fn no_translation(&self) -> (r: Matrix)
        ensures
            r == (Matrix { e: 0, f: 0, ..*self }),
    {
        Matrix { e: 0, f: 0, ..*self }
    }

    /// Determinant of the linear (translation-free) part. The stripped
    /// transform is invertible exactly when this is nonzero.
    pub open spec fn linear_det(self) -> int {
        self.a * self.d - self.b * self.c
    }
}

/// The result of the path-space transform computation: a rational affine
/// matrix with one common denominator. It maps `(x, y)` to
/// `((a*x + c*y + e) / den, (b*x + d*y + f) / den)` with `den != 0`.
#[derive(Debug, Clone, Copy, PartialEq, Eq, Structural)]
pub struct PathTransform {
    pub a: i128,
    pub b: i128,
    pub c: i128,
    pub d: i128,
    pub e: i128,
    pub f: i128,
    pub den: i128,
}

/// Mathematical value of a [`PathTransform`]: the same seven entries as
/// unbounded integers.
pub ghost struct PathTransformV {
    pub a: int,
    pub b: int,
    pub c: int,
    pub d: int,
    pub e: int,
    pub f: int,
    pub den: int,
}

impl View for PathTransform {
    type V = PathTransformV;

    open spec fn view(&self) -> PathTransformV {
        PathTransformV {
            a: self.a as int,
            b: self.b as int,
            c: self.c as int,
            d: self.d as int,
            e: self.e as int,
            f: self.f as int,
            den: self.den as int,
        }
    }
}

/// The exact value of the path-space transform for a shape with transform `m`
/// and bounds `selrect`: the composition `T(center) * inverse(stripped m) *
/// T(-center)`, written as one rational matrix over the common denominator
/// `2 * det` (the factor 2 carries the halving in `center`).
pub open spec fn path_transform_model(m: Matrix, selrect: Rect) -> PathTransformV {
    let det = m.linear_det();
    let sx = selrect.center_x2();
    let sy = selrect.center_y2();
    PathTransformV {
        a: 2 * m.d,
        b: -2 * m.b,
        c: -2 * m.c,
        d: 2 * m.a,
        e: sx * det - m.d * sx + m.c * sy,
        f: sy * det + m.b * sx - m.a * sy,
        den: 2 * det,
    }
}

/// Whether a rational affine matrix is the identity map.
pub open spec fn pt_is_identity(pt: PathTransformV) -> bool {
    &&& pt.den != 0
    &&& pt.a == pt.den
    &&& pt.b == 0
    &&& pt.c == 0
    &&& pt.d == pt.den
    &&& pt.e == 0
    &&& pt.f == 0
}

/// Whether a rational affine matrix maps the center of `selrect` to itself.
/// The center is `(sx / 2, sy / 2)`; both equations are the image equations
/// with all denominators cleared.
pub open spec fn pt_fixes_center(pt: PathTransformV, selrect: Rect) -> bool {
    &&& pt.a * selrect.center_x2() + pt.c * selrect.center_y2() + 2 * pt.e == pt.den
        * selrect.center_x2()
    &&& pt.b * selrect.center_x2() + pt.d * selrect.center_y2() + 2 * pt.f == pt.den
        * selrect.center_y2()
}

proof fn lemma_mul_bound(x: int, y: int, bx: int, by: int)
    by (nonlinear_arith)
    requires
        -bx <= x <= bx,
        -by <= y <= by,
        0 <= bx,
        0 <= by,
    ensures
        -(bx * by) <= x * y <= bx * by,
{
}

/// Computes the path-space transform about the center of `selrect`: the
/// inverse of the translation-stripped `transform`, conjugated by the
/// translation that moves the center to the origin and back. Returns `None`
/// exactly when the stripped transform is singular.
pub fn compute_path_transform(transform: &Matrix, selrect: &Rect) -> (r: Option<PathTransform>)
    ensures
        transform.linear_det() == 0 <==> r is None,
        r matches Some(pt) ==> pt@ == path_transform_model(*transform, *selrect),
{
    let a = transform.a as i128;
    let b = transform.b as i128;
    let c = transform.c as i128;
    let d = transform.d as i128;
    proof {
        lemma_mul_bound(a as int, d as int, 0x8000_0000, 0x8000_0000);
        lemma_mul_bound(b as int, c as int, 0x8000_0000, 0x8000_0000);
    }
    let det = a * d - b * c;
    if det == 0 {
        return None;
    }
    let sx = (selrect.left as i128) + (selrect.right as i128);
    let sy = (selrect.top as i128) + (selrect.bottom as i128);
    proof {
        lemma_mul_bound(sx as int, det as int, 0x1_0000_0000, 0x8000_0000_0000_0000);
        lemma_mul_bound(sy as int, det as int, 0x1_0000_0000, 0x8000_0000_0000_0000);
        lemma_mul_bound(d as int, sx as int, 0x8000_0000, 0x1_0000_0000);
        lemma_mul_bound(c as int, sy as int, 0x8000_0000, 0x1_0000_0000);
        lemma_mul_bound(b as int, sx as int, 0x8000_0000, 0x1_0000_0000);
        lemma_mul_bound(a as int, sy as int, 0x8000_0000, 0x1_0000_0000);
    }
    let e = sx * det - d * sx + c * sy;
    let f = sy * det + b * sx - a * sy;
    let nb = -b;
    let nc = -c;
    Some(
        PathTransform {
            a: 2 * d,
            b: 2 * nb,
            c: 2 * nc,
            d: 2 * a,
            e,
            f,
            den: 2 * det,
        },
    )
}

/// For a pure translation (the linear part of the transform is the identity),
/// the path-space transform is the identity map: translation has no effect on
/// the stripped, inverted component.
pub proof fn lemma_translation_path_transform_is_identity(m: Matrix, selrect: Rect)
    requires
        m.a == 1,
        m.b == 0,
        m.c == 0,
        m.d == 1,
    ensures
        pt_is_identity(path_transform_model(m, selrect)),
{
    let sx = selrect.center_x2();
    let sy = selrect.center_y2();
    assert(m.linear_det() == 1) by (nonlinear_arith)
        requires
            m.a == 1,
            m.b == 0,
            m.c == 0,
            m.d == 1,
    ;
    assert(sx * 1 - 1 * sx + 0 * sy == 0) by (nonlinear_arith);
    assert(sy * 1 + 0 * sx - 1 * sy == 0) by (nonlinear_arith);
}

/// The path-space transform fixes the center of the shape's bounds: applied
/// to the center point itself, it maps it to itself, whatever invertible
/// transform the shape carries.
pub proof fn lemma_path_transform_fixes_center(m: Matrix, selrect: Rect)
    requires
        m.linear_det() != 0,
    ensures
        pt_fixes_center(path_transform_model(m, selrect), selrect),
{
    let det = m.linear_det();
    let sx = selrect.center_x2();
    let sy = selrect.center_y2();
    let a = m.a as int;
    let b = m.b as int;
    let c = m.c as int;
    let d = m.d as int;
    assert((2 * d) * sx + (-2 * c) * sy + 2 * (sx * det - d * sx + c * sy) == (2 * det)
        * sx) by (nonlinear_arith);
    assert((-2 * b) * sx + (2 * a) * sy + 2 * (sy * det + b * sx - a * sy) == (2 * det)
        * sy) by (nonlinear_arith);
}

} // verus!
