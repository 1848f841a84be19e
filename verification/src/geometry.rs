//! Points, sizes, rectangles, angles and trigonometric ratios of the graphics API.
//!
//! Coordinates are `i16`, as on the watch. Divisions truncate toward zero, as
//! they do both in Rust and in the C graphics library.
use vstd::prelude::*;

verus! {

/// The full circle in trigonometric angle units.
pub const TRIG_MAX_ANGLE: i32 = 0x10000;

/// The unit ratio (1.0) in trigonometric ratio units.
pub const TRIG_MAX_RATIO: i32 = 0xffff;

/// Division truncating toward zero, written with the Euclidean `/` of specs.
pub open spec fn trunc_div(x: int, d: int) -> int {
    if x >= 0 {
        x / d
    } else {
        -((-x) / d)
    }
}

/// A truncating quotient of a value in `[-hi - 1, hi]` stays in that range,
/// except for the one overflowing case `(-hi - 1) / -1`.
pub proof fn lemma_trunc_div_range(x: int, d: int, lo: int, hi: int)
    requires
        d != 0,
        0 <= hi,
        lo == -hi - 1,
        lo <= x <= hi,
        !(x == lo && d == -1),
    ensures
        lo <= trunc_div(x, d) <= hi,
{
    if x >= 0 {
        if d > 0 {
            assert(0 <= x / d <= x) by (nonlinear_arith)
                requires
                    x >= 0,
                    d > 0,
            ;
        } else {
            assert(-x <= x / d <= 0) by (nonlinear_arith)
                requires
                    x >= 0,
                    d < 0,
            ;
        }
    } else {
        let y = -x;
        if d > 0 {
            assert(0 <= y / d <= y) by (nonlinear_arith)
                requires
                    y > 0,
                    d > 0,
            ;
        } else if d == -1 {
            assert(y / d == -y);
        } else {
            assert(-y <= y / d <= 0 && 2 * (y / d) >= -y) by (nonlinear_arith)
                requires
                    y > 0,
                    d < -1,
            ;
        }
    }
}

/// Whether an integer fits into `i16`.
pub open spec fn fits_i16(v: int) -> bool {
    i16::MIN <= v <= i16::MAX
}

/// A point in screen or layer coordinates.
#[derive(Clone, Copy, PartialEq, Eq, Structural, Debug)]
pub struct GPoint {
    pub x: i16,
    pub y: i16,
}

/// A size, with width and height.
#[derive(Clone, Copy, PartialEq, Eq, Structural, Debug)]
pub struct GSize {
    pub w: i16,
    pub h: i16,
}

/// A rectangle given by its top-left origin and its size.
#[derive(Clone, Copy, PartialEq, Eq, Structural, Debug)]
pub struct GRect {
    pub origin: GPoint,
    pub size: GSize,
}

/// An angle in trigonometric units, where [`TRIG_MAX_ANGLE`] is a full turn.
#[derive(Clone, Copy, PartialEq, Eq, Structural, PartialOrd, Ord, Debug)]
pub struct Angle {
    pub value: i32,
}

/// A ratio in trigonometric units, where [`TRIG_MAX_RATIO`] stands for 1.
#[derive(Clone, Copy, PartialEq, Eq, Structural, Debug)]
pub struct Ratio {
    pub value: i32,
}

impl GPoint {
    /// Creates a point.
    pub fn new(x: i16, y: i16) -> (r: Self)
        ensures
            r.x == x,
            r.y == y,
    {
        Self { x, y }
    }

    /// Component-wise difference `self - rhs`.
    pub fn subtract(self, rhs: GPoint) -> (r: Self)
        requires
            fits_i16(self.x - rhs.x),
            fits_i16(self.y - rhs.y),
        ensures
            r.x == self.x - rhs.x,
            r.y == self.y - rhs.y,
    {
        Self { x: self.x - rhs.x, y: self.y - rhs.y }
    }
}

impl GSize {
    /// Creates a size from width and height.
    pub fn new(w: i16, h: i16) -> (r: Self)
        ensures
            r.w == w,
            r.h == h,
    {
        Self { w, h }
    }

    /// Creates a square size with identical width and height.
    pub fn square(size: i16) -> (r: Self)
        ensures
            r.w == size,
            r.h == size,
    {
        Self { w: size, h: size }
    }

    /// Both dimensions multiplied by `rhs`.
    pub fn multiply(self, rhs: i16) -> (r: Self)
        requires
            fits_i16(self.w * rhs),
            fits_i16(self.h * rhs),
        ensures
            r.w == self.w * rhs,
            r.h == self.h * rhs,
    {
        let mut s = self;
        s.w = s.w * rhs;
        s.h = s.h * rhs;
        s
    }

    /// Both dimensions divided by `rhs`, truncating toward zero.
    pub fn divide(self, rhs: i16) -> (r: Self)
        requires
            rhs != 0,
            !(rhs == -1 && (self.w == i16::MIN || self.h == i16::MIN)),
        ensures
            r.w == trunc_div(self.w as int, rhs as int),
            r.h == trunc_div(self.h as int, rhs as int),
    {
        proof {
            lemma_trunc_div_range(self.w as int, rhs as int, i16::MIN as int, i16::MAX as int);
            lemma_trunc_div_range(self.h as int, rhs as int, i16::MIN as int, i16::MAX as int);
        }
        let mut s = self;
        s.w = s.w / rhs;
        s.h = s.h / rhs;
        s
    }

    /// The point with `x` = width and `y` = height.
    pub fn as_point(self) -> (r: GPoint)
        ensures
            r.x == self.w,
            r.y == self.h,
    {
        GPoint { x: self.w, y: self.h }
    }

    /// Both dimensions scaled by the ratio, each result truncated to `i16`.
    pub fn scaled(self, ratio: Ratio) -> (r: Self)
        requires
            ratio.scale_in_range(self.w as i32),
            ratio.scale_in_range(self.h as i32),
        ensures
            r.w == ratio.spec_scale(self.w as i32) as i16,
            r.h == ratio.spec_scale(self.h as i32) as i16,
    {
        let mut s = self;
        s.w = ratio.scale(s.w as i32) as i16;
        s.h = ratio.scale(s.h as i32) as i16;
        s
    }
}

impl core::ops::Mul<i16> for GSize {
    type Output = GSize;

    /// `size * k` is [`GSize::multiply`].
    fn mul(self, rhs: i16) -> (r: GSize) {
        self.multiply(rhs)
    }
}

impl vstd::std_specs::ops::MulSpecImpl<i16> for GSize {
    open spec fn obeys_mul_spec() -> bool {
        true
    }

    open spec fn mul_req(self, rhs: i16) -> bool {
        fits_i16(self.w * rhs) && fits_i16(self.h * rhs)
    }

    open spec fn mul_spec(self, rhs: i16) -> GSize {
        GSize { w: (self.w * rhs) as i16, h: (self.h * rhs) as i16 }
    }
}

impl core::ops::Div<i16> for GSize {
    type Output = GSize;

    /// `size / k` is [`GSize::divide`].
    fn div(self, rhs: i16) -> (r: GSize) {
        self.divide(rhs)
    }
}

impl vstd::std_specs::ops::DivSpecImpl<i16> for GSize {
    open spec fn obeys_div_spec() -> bool {
        true
    }

    open spec fn div_req(self, rhs: i16) -> bool {
        rhs != 0 && !(rhs == -1 && (self.w == i16::MIN || self.h == i16::MIN))
    }

    open spec fn div_spec(self, rhs: i16) -> GSize {
        GSize {
            w: trunc_div(self.w as int, rhs as int) as i16,
            h: trunc_div(self.h as int, rhs as int) as i16,
        }
    }
}

impl From<GPoint> for GSize {
    fn from(val: GPoint) -> (r: Self) {
        GSize { w: val.x, h: val.y }
    }
}

impl vstd::std_specs::convert::FromSpecImpl<GPoint> for GSize {
    open spec fn obeys_from_spec() -> bool {
        true
    }

    open spec fn from_spec(v: GPoint) -> Self {
        GSize { w: v.x, h: v.y }
    }
}

impl From<GSize> for GPoint {
    fn from(val: GSize) -> (r: Self) {
        val.as_point()
    }
}

impl vstd::std_specs::convert::FromSpecImpl<GSize> for GPoint {
    open spec fn obeys_from_spec() -> bool {
        true
    }

    open spec fn from_spec(v: GSize) -> Self {
        GPoint { x: v.w, y: v.h }
    }
}

impl Ratio {
    /// `v * value / TRIG_MAX_RATIO` with truncating division, as an integer.
    pub open spec fn spec_scale(self, v: i32) -> int {
        trunc_div(v * self.value, TRIG_MAX_RATIO as int)
    }

    /// Whether scaling `v` stays within `i32` on the way.
    pub open spec fn scale_in_range(self, v: i32) -> bool {
        i32::MIN <= v * self.value <= i32::MAX
    }

    /// Creates a ratio from its raw trigonometric value.
    pub fn new(value: i32) -> (r: Self)
        ensures
            r.value == value,
    {
        Self { value }
    }

    /// Scales `v` by this ratio: `v * value / TRIG_MAX_RATIO`, truncating.
    pub fn scale(&self, v: i32) -> (r: i32)
        requires
            self.scale_in_range(v),
        ensures
            r == self.spec_scale(v),
    {
        let p = v * self.value;
        proof {
            lemma_trunc_div_range(p as int, TRIG_MAX_RATIO as int, i32::MIN as int, i32::MAX as int);
        }
        p / TRIG_MAX_RATIO
    }
}

impl Angle {
    /// `degrees * TRIG_MAX_ANGLE / 360`, truncating, as an integer.
    pub open spec fn spec_from_degrees(degrees: i32) -> int {
        trunc_div(degrees * TRIG_MAX_ANGLE, 360)
    }

    /// The angle of the given number of degrees.
    pub fn from_degrees(degrees: i32) -> (r: Self)
        requires
            -32768 <= degrees <= 32767,
        ensures
            r.value == Self::spec_from_degrees(degrees),
    {
        let p = degrees * TRIG_MAX_ANGLE;
        proof {
            lemma_trunc_div_range(p as int, 360, i32::MIN as int, i32::MAX as int);
        }
        Self { value: p / 360 }
    }

    /// Brings the angle into `[0, TRIG_MAX_ANGLE)` without changing its direction.
    pub fn normalize(&mut self)
        ensures
            0 <= final(self).value < TRIG_MAX_ANGLE,
            final(self).value as int == old(self).value as int % (TRIG_MAX_ANGLE as int),
    {
        let m = self.value % TRIG_MAX_ANGLE;
        if m < 0 {
            self.value = m + TRIG_MAX_ANGLE;
        } else {
            self.value = m;
        }
    }
}

impl GRect {
    /// The rectangle's center: the origin plus half the size, each half
    /// truncated toward zero and each coordinate truncated to `i16`.
    pub open spec fn spec_center(self) -> GPoint {
        GPoint {
            x: (self.origin.x + trunc_div(self.size.w as int, 2)) as i16,
            y: (self.origin.y + trunc_div(self.size.h as int, 2)) as i16,
        }
    }

    /// The rectangle with all sides moved inward by `amount`: the origin
    /// moved by `amount`, both dimensions reduced by `2 * amount`, each result
    /// truncated to `i16`.
    pub open spec fn spec_shrink(self, amount: int) -> GRect {
        GRect {
            origin: GPoint {
                x: (self.origin.x + amount) as i16,
                y: (self.origin.y + amount) as i16,
            },
            size: GSize { w: (self.size.w - 2 * amount) as i16, h: (self.size.h - 2 * amount) as i16 },
        }
    }

    /// Whether shrinking by `amount` keeps the dimensions non-negative and
    /// its arithmetic within `i32`.
    pub open spec fn shrink_allowed(self, amount: i32) -> bool {
        &&& 0 <= self.size.w - 2 * amount <= i32::MAX
        &&& 0 <= self.size.h - 2 * amount <= i32::MAX
        &&& i32::MIN <= self.origin.x + amount <= i32::MAX
        &&& i32::MIN <= self.origin.y + amount <= i32::MAX
        &&& i32::MIN <= 2 * amount
    }

    /// Creates a rectangle from its origin (top left) and its size.
    pub fn new_from_top_left(origin: GPoint, size: GSize) -> (r: Self)
        ensures
            r.origin == origin,
            r.size == size,
    {
        Self { origin, size }
    }

    /// Creates a rectangle of the given size centered on `center`; the origin
    /// is `center - size / 2`.
    pub fn new_centered(center: GPoint, size: GSize) -> (r: Self)
        requires
            fits_i16(center.x - trunc_div(size.w as int, 2)),
            fits_i16(center.y - trunc_div(size.h as int, 2)),
        ensures
            r.size == size,
            r.origin.x == center.x - trunc_div(size.w as int, 2),
            r.origin.y == center.y - trunc_div(size.h as int, 2),
    {
        let origin = center.subtract(size.divide(2).as_point());
        Self { origin, size }
    }

    /// Creates a rectangle from x, y, width and height.
    pub fn new(x: i16, y: i16, w: i16, h: i16) -> (r: Self)
        ensures
            r.origin.x == x,
            r.origin.y == y,
            r.size.w == w,
            r.size.h == h,
    {
        Self { origin: GPoint { x, y }, size: GSize { w, h } }
    }

    /// Moves all four sides inward by `amount`: the origin moves by `amount`
    /// and both dimensions lose `2 * amount`, each result truncated to `i16`.
    /// The crop must not make a dimension negative.
    ///
    /// This is computed here rather than by the watch firmware's `grect_crop`;
    /// the statement follows the Pebble SDK documentation of that function,
    /// which this crate cannot check against the firmware.
    pub fn shrink(self, amount: i32) -> (r: Self)
        requires
            self.shrink_allowed(amount),
        ensures
            r == self.spec_shrink(amount as int),
    {
        let x = (self.origin.x as i32 + amount) as i16;
        let y = (self.origin.y as i32 + amount) as i16;
        let w = (self.size.w as i32 - 2 * amount) as i16;
        let h = (self.size.h as i32 - 2 * amount) as i16;
        GRect { origin: GPoint { x, y }, size: GSize { w, h } }
    }

    /// Moves all four sides outward by `amount`, as shrinking by `-amount`.
    ///
    /// This is computed here rather than by the watch firmware's `grect_crop`;
    /// the statement follows the Pebble SDK documentation of that function,
    /// which this crate cannot check against the firmware.
    pub fn expand(self, amount: i32) -> (r: Self)
        requires
            amount != i32::MIN,
            0 <= self.size.w + 2 * amount,
            0 <= self.size.h + 2 * amount,
            self.size.w + 2 * amount <= i32::MAX,
            self.size.h + 2 * amount <= i32::MAX,
            i32::MIN <= self.origin.x - amount <= i32::MAX,
            i32::MIN <= self.origin.y - amount <= i32::MAX,
            2 * amount <= i32::MAX,
        ensures
            r == self.spec_shrink(-amount),
    {
        self.shrink(-amount)
    }

    /// The center point: `origin + size / 2`, truncating the division, and
    /// the sum truncated to `i16`.
    ///
    /// This is computed here rather than by the watch firmware's `grect_center_point`;
    /// the statement follows the Pebble SDK documentation of that function,
    /// which this crate cannot check against the firmware.
    pub fn center_point(&self) -> (r: GPoint)
        ensures
            r == self.spec_center(),
    {
        let half = self.size.divide(2);
        let x = (self.origin.x as i32 + half.w as i32) as i16;
        let y = (self.origin.y as i32 + half.h as i32) as i16;
        GPoint { x, y }
    }

    /// Whether the rectangle has zero width and zero height.
    ///
    /// This is computed here rather than by the watch firmware's `grect_is_empty`;
    /// the statement follows the Pebble SDK documentation of that function,
    /// which this crate cannot check against the firmware.
    pub fn is_empty(&self) -> (r: bool)
        ensures
            r == (self.size.w == 0 && self.size.h == 0),
    {
        self.size.w == 0 && self.size.h == 0
    }

    /// Makes both dimensions non-negative, moving the origin so that the
    /// rectangle covers the same area: a negative width `w` moves the origin
    /// by `w` and becomes `-w`, and likewise for the height; each result is
    /// truncated to `i16`.
    ///
    /// This is computed here rather than by the watch firmware's `grect_standardize`;
    /// the statement follows the Pebble SDK documentation of that function,
    /// which this crate cannot check against the firmware.
    pub fn standardize(self) -> (r: Self)
        ensures
            r.size.w == if self.size.w < 0 { (-self.size.w) as i16 } else { self.size.w },
            r.size.h == if self.size.h < 0 { (-self.size.h) as i16 } else { self.size.h },
            r.origin.x == if self.size.w < 0 {
                (self.origin.x + self.size.w) as i16
            } else {
                self.origin.x
            },
            r.origin.y == if self.size.h < 0 {
                (self.origin.y + self.size.h) as i16
            } else {
                self.origin.y
            },
            self.size.w != i16::MIN ==> r.size.w >= 0,
            self.size.h != i16::MIN ==> r.size.h >= 0,
    {
        let mut r = self;
        if r.size.w < 0 {
            r.origin.x = (r.origin.x as i32 + r.size.w as i32) as i16;
            r.size.w = (-(r.size.w as i32)) as i16;
        }
        if r.size.h < 0 {
            r.origin.y = (r.origin.y as i32 + r.size.h as i32) as i16;
            r.size.h = (-(r.size.h as i32)) as i16;
        }
        r
    }
}

/// A rectangle created centered on a point has that point as its center.
pub proof fn lemma_centered_rect_has_center(center: GPoint, size: GSize)
    requires
        fits_i16(center.x - trunc_div(size.w as int, 2)),
        fits_i16(center.y - trunc_div(size.h as int, 2)),
    ensures
        ({
            let r = GRect {
                origin: GPoint {
                    x: (center.x - trunc_div(size.w as int, 2)) as i16,
                    y: (center.y - trunc_div(size.h as int, 2)) as i16,
                },
                size,
            };
            r.spec_center() == center
        }),
{
}

/// Adding back what was subtracted gives the value again, also when the
/// intermediate result wrapped around in `i16`.
pub proof fn lemma_i16_wrap_back(x: i16, a: i32)
    ensures
        (((x as i32 - a) as i16) as i32 + a) as i16 == x,
{
    assert((((x as i32 - a) as i16) as i32 + a) as i16 == x) by (bit_vector);
}

/// Expanding a rectangle and then shrinking it by the same amount gives it
/// back, whenever both calls are allowed.
pub proof fn lemma_expand_then_shrink(rect: GRect, amount: i32)
    requires
        amount != i32::MIN,
        0 <= rect.size.w + 2 * amount <= i32::MAX,
        0 <= rect.size.h + 2 * amount <= i32::MAX,
        i32::MIN <= rect.origin.x - amount <= i32::MAX,
        i32::MIN <= rect.origin.y - amount <= i32::MAX,
        2 * amount <= i32::MAX,
        rect.spec_shrink(-amount).shrink_allowed(amount),
    ensures
        rect.spec_shrink(-amount).spec_shrink(amount as int) == rect,
{
    lemma_i16_wrap_back(rect.origin.x, amount);
    lemma_i16_wrap_back(rect.origin.y, amount);
    lemma_i16_wrap_back(rect.size.w, (-2 * amount) as i32);
    lemma_i16_wrap_back(rect.size.h, (-2 * amount) as i32);
}

/// Converting a size to a point and back gives the size, and vice versa.
pub proof fn lemma_size_point_roundtrip(s: GSize, p: GPoint)
    ensures
        <GSize as vstd::std_specs::convert::FromSpec<GPoint>>::from_spec(
            <GPoint as vstd::std_specs::convert::FromSpec<GSize>>::from_spec(s),
        ) == s,
        <GPoint as vstd::std_specs::convert::FromSpec<GSize>>::from_spec(
            <GSize as vstd::std_specs::convert::FromSpec<GPoint>>::from_spec(p),
        ) == p,
{
}

/// Multiplying a size by a nonzero factor and dividing by it gives it back.
pub proof fn lemma_multiply_then_divide(s: GSize, k: i16)
    requires
        k != 0,
        fits_i16(s.w * k),
        fits_i16(s.h * k),
    ensures
        trunc_div(s.w * k, k as int) == s.w,
        trunc_div(s.h * k, k as int) == s.h,
{
    lemma_trunc_div_of_multiple(s.w as int, k as int);
    lemma_trunc_div_of_multiple(s.h as int, k as int);
}

/// `(x * k) / k == x` for truncating division and `k != 0`.
pub proof fn lemma_trunc_div_of_multiple(x: int, k: int)
    requires
        k != 0,
    ensures
        trunc_div(x * k, k) == x,
{
    if x * k >= 0 {
        assert((x * k) / k == x) by (nonlinear_arith)
            requires
                k != 0,
        ;
    } else {
        assert((-(x * k)) / k == -x) by (nonlinear_arith)
            requires
                k != 0,
        ;
    }
}

} // verus!
