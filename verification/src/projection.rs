//! The orthographic projection box and the letterbox calculation.

use vstd::prelude::*;
use crate::geometry::Rectangle;

verus! {

/// A fraction of two whole numbers. A denominator of zero stands for a term
/// that does not exist, as in the projection of an empty box.
#[derive(Copy, Clone, Debug, PartialEq, Eq, Structural)]
pub struct Fraction {
    pub num: i64,
    pub den: i64,
}

/// A fraction of two integers; it stands for `num / den`.
pub struct Ratio {
    pub num: int,
    pub den: int,
}

impl Ratio {
    /// Whether the fraction is the whole number `v`.
    pub open spec fn is_whole(self, v: int) -> bool {
        self.den != 0 && self.num == v * self.den
    }
}

impl View for Fraction {
    type V = Ratio;

    open spec fn view(&self) -> Ratio {
        Ratio { num: self.num as int, den: self.den as int }
    }
}

/// An orthographic projection: the terms of its matrix that are not fixed,
/// each as an exact fraction.
///
/// The matrix scales along its diagonal and moves by its last column; the
/// rest of it is zero, and its last entry is one.
#[derive(Copy, Clone, Debug, PartialEq, Eq, Structural)]
pub struct Projection {
    pub scale_x: Fraction,
    pub scale_y: Fraction,
    pub scale_z: Fraction,
    pub offset_x: Fraction,
    pub offset_y: Fraction,
    pub offset_z: Fraction,
}

impl Projection {
    /// The clip X of a point with the given X: scale times `x`, plus offset.
    pub open spec fn clip_x(self, x: int) -> Ratio {
        Ratio { num: self.scale_x.num * x + self.offset_x.num, den: self.scale_x.den as int }
    }

    /// The clip Y of a point with the given Y.
    pub open spec fn clip_y(self, y: int) -> Ratio {
        Ratio { num: self.scale_y.num * y + self.offset_y.num, den: self.scale_y.den as int }
    }

    /// The clip Z of a point with the given Z.
    pub open spec fn clip_z(self, z: int) -> Ratio {
        Ratio { num: self.scale_z.num * z + self.offset_z.num, den: self.scale_z.den as int }
    }

    /// The matrix, column by column, as the device takes it.
    pub fn columns(&self) -> (m: [[Fraction; 4]; 4])
        ensures
            m@ == matrix_of(*self),
    {
        let zero = Fraction { num: 0, den: 1 };
        let one = Fraction { num: 1, den: 1 };
        let m = [
            [self.scale_x, zero, zero, zero],
            [zero, self.scale_y, zero, zero],
            [zero, zero, self.scale_z, zero],
            [self.offset_x, self.offset_y, self.offset_z, one],
        ];
        assert(m@ =~= matrix_of(*self));
        m
    }
}

/// The four columns of the matrix of a projection.
pub open spec fn matrix_of(p: Projection) -> Seq<[Fraction; 4]> {
    let zero = Fraction { num: 0, den: 1 };
    let one = Fraction { num: 1, den: 1 };
    seq![
        [p.scale_x, zero, zero, zero],
        [zero, p.scale_y, zero, zero],
        [zero, zero, p.scale_z, zero],
        [p.offset_x, p.offset_y, p.offset_z, one],
    ]
}

/// The orthographic projection that maps the given box onto the clip cube:
/// the scale terms are `2 / (right - left)`, `2 / (top - bottom)` and
/// `-2 / (far - near)`, the offset terms `-(right + left) / (right - left)`,
/// `-(top + bottom) / (top - bottom)` and `-(far + near) / (far - near)`.
pub open spec fn ortho_of(left: i32, right: i32, bottom: i32, top: i32, near: i32, far: i32)
    -> Projection {
    Projection {
        scale_x: Fraction { num: 2, den: (right - left) as i64 },
        scale_y: Fraction { num: 2, den: (top - bottom) as i64 },
        scale_z: Fraction { num: -2i64, den: (far - near) as i64 },
        offset_x: Fraction { num: (-(right + left)) as i64, den: (right - left) as i64 },
        offset_y: Fraction { num: (-(top + bottom)) as i64, den: (top - bottom) as i64 },
        offset_z: Fraction { num: (-(far + near)) as i64, den: (far - near) as i64 },
    }
}

/// The projection of a surface `width` by `height` whose origin is its top
/// left corner and whose Y grows downwards: `bottom` and `top` are handed
/// over swapped, so that the result is flipped in Y with no matrix of its own
/// for the flip.
pub open spec fn screen_projection(width: i32, height: i32) -> Projection {
    ortho_of(0, width, height, 0, -1i32, 1)
}

/// Builds the orthographic projection of the given box.
pub fn ortho(left: i32, right: i32, bottom: i32, top: i32, near: i32, far: i32) -> (p: Projection)
    ensures
        p == ortho_of(left, right, bottom, top, near, far),
{
    let width: i64 = right as i64 - left as i64;
    let height: i64 = top as i64 - bottom as i64;
    let depth: i64 = far as i64 - near as i64;
    Projection {
        scale_x: Fraction { num: 2, den: width },
        scale_y: Fraction { num: 2, den: height },
        scale_z: Fraction { num: -2, den: depth },
        offset_x: Fraction { num: -(right as i64 + left as i64), den: width },
        offset_y: Fraction { num: -(top as i64 + bottom as i64), den: height },
        offset_z: Fraction { num: -(far as i64 + near as i64), den: depth },
    }
}

/// The whole factor by which the internal surface is scaled: the window's
/// width over the internal width where the window is no wider than high, else
/// the height over the height, rounded down.
pub open spec fn scale_factor(
    internal_width: int,
    internal_height: int,
    window_width: int,
    window_height: int,
) -> int {
    if window_width <= window_height {
        window_width / internal_width
    } else {
        window_height / internal_height
    }
}

/// Half of `v`, rounded towards zero.
pub open spec fn half(v: int) -> int {
    if v >= 0 {
        v / 2
    } else {
        -((-v) / 2)
    }
}

/// The part of the window that the internal surface is drawn into: scaled by
/// the whole factor and centred.
pub open spec fn letterbox_of(
    internal_width: int,
    internal_height: int,
    window_width: int,
    window_height: int,
) -> (int, int, int, int) {
    let s = scale_factor(internal_width, internal_height, window_width, window_height);
    (
        half(window_width - internal_width * s),
        half(window_height - internal_height * s),
        internal_width * s,
        internal_height * s,
    )
}

/// Whether `r` is the letterbox of the given resolutions.
pub open spec fn is_letterbox(
    r: Rectangle,
    internal_width: int,
    internal_height: int,
    window_width: int,
    window_height: int,
) -> bool {
    letterbox_of(internal_width, internal_height, window_width, window_height) == (
        r.x as int,
        r.y as int,
        r.width as int,
        r.height as int,
    )
}

/// The letterbox of the given resolutions, as a rectangle.
pub open spec fn letterbox_rect(
    internal_width: i32,
    internal_height: i32,
    window_width: i32,
    window_height: i32,
) -> Rectangle {
    let b = letterbox_of(
        internal_width as int,
        internal_height as int,
        window_width as int,
        window_height as int,
    );
    Rectangle { x: b.0 as i64, y: b.1 as i64, width: b.2 as i64, height: b.3 as i64 }
}

/// The factor is never negative, and no larger than the window.
pub proof fn lemma_scale_factor_bounds(iw: int, ih: int, ww: int, wh: int)
    requires
        iw > 0,
        ih > 0,
        0 <= ww,
        0 <= wh,
    ensures
        0 <= scale_factor(iw, ih, ww, wh),
        scale_factor(iw, ih, ww, wh) <= if ww <= wh { ww } else { wh },
        0 <= iw * scale_factor(iw, ih, ww, wh) <= iw * (if ww <= wh { ww } else { wh }),
        0 <= ih * scale_factor(iw, ih, ww, wh) <= ih * (if ww <= wh { ww } else { wh }),
{
    let s = scale_factor(iw, ih, ww, wh);
    let m = if ww <= wh { ww } else { wh };
    assert(0 <= ww / iw <= ww) by (nonlinear_arith)
        requires
            iw > 0,
            0 <= ww,
    ;
    assert(0 <= wh / ih <= wh) by (nonlinear_arith)
        requires
            ih > 0,
            0 <= wh,
    ;
    assert(0 <= iw * s <= iw * m) by (nonlinear_arith)
        requires
            iw > 0,
            0 <= s <= m,
    ;
    assert(0 <= ih * s <= ih * m) by (nonlinear_arith)
        requires
            ih > 0,
            0 <= s <= m,
    ;
}

/// Halves `v`, rounding towards zero.
fn halve(v: i64) -> (h: i64)
    requires
        v > i64::MIN,
    ensures
        h == half(v as int),
{
    if v >= 0 {
        v / 2
    } else {
        -((-v) / 2)
    }
}

/// The letterbox of a surface in a window can be held in a `Rectangle`, and so
/// can its far corner.
pub proof fn lemma_letterbox_bounds(iw: i32, ih: i32, ww: i32, wh: i32)
    requires
        iw > 0,
        ih > 0,
        ww >= 0,
        wh >= 0,
    ensures
        is_letterbox(letterbox_rect(iw, ih, ww, wh), iw as int, ih as int, ww as int, wh as int),
        0 <= letterbox_rect(iw, ih, ww, wh).width <= 0x4000_0000_0000_0000,
        0 <= letterbox_rect(iw, ih, ww, wh).height <= 0x4000_0000_0000_0000,
        -0x2000_0000_0000_0000 <= letterbox_rect(iw, ih, ww, wh).x <= 0x4000_0000,
        -0x2000_0000_0000_0000 <= letterbox_rect(iw, ih, ww, wh).y <= 0x4000_0000,
{
    lemma_scale_factor_bounds(iw as int, ih as int, ww as int, wh as int);
    let m: int = if ww <= wh {
        ww as int
    } else {
        wh as int
    };
    assert(iw * m <= 0x4000_0000_0000_0000) by (nonlinear_arith)
        requires
            0 < iw <= 0x7fff_ffff,
            0 <= m <= 0x7fff_ffff,
    ;
    assert(ih * m <= 0x4000_0000_0000_0000) by (nonlinear_arith)
        requires
            0 < ih <= 0x7fff_ffff,
            0 <= m <= 0x7fff_ffff,
    ;
}

/// Computes the part of the window that the internal surface is drawn into.
///
/// The surface is scaled by a whole factor only, so that every pixel of it
/// covers the same number of window pixels, and is centred in the window. In
/// a window smaller than the surface the factor is zero and so is the area.
pub fn letterbox(
    internal_width: i32,
    internal_height: i32,
    window_width: i32,
    window_height: i32,
) -> (r: Rectangle)
    requires
        internal_width > 0,
        internal_height > 0,
        window_width >= 0,
        window_height >= 0,
    ensures
        r == letterbox_rect(internal_width, internal_height, window_width, window_height),
        is_letterbox(
            r,
            internal_width as int,
            internal_height as int,
            window_width as int,
            window_height as int,
        ),
{
    proof {
        lemma_letterbox_bounds(internal_width, internal_height, window_width, window_height);
    }
    let scale: i32 = if window_width <= window_height {
        window_width / internal_width
    } else {
        window_height / internal_height
    };
    let letterbox_width: i64 = (internal_width as i64) * (scale as i64);
    let letterbox_height: i64 = (internal_height as i64) * (scale as i64);
    let letterbox_x: i64 = halve(window_width as i64 - letterbox_width);
    let letterbox_y: i64 = halve(window_height as i64 - letterbox_height);
    Rectangle::new(letterbox_x, letterbox_y, letterbox_width, letterbox_height)
}

} // verus!
