use vstd::prelude::*;
use vstd::arithmetic::div_mod::{lemma_fundamental_div_mod, lemma_fundamental_div_mod_converse, lemma_div_is_ordered, lemma_div_multiples_vanish};

verus! {

/// Steps of a length within one logical pixel: every length is stored in 1/65536 px.
pub const SUBPIXELS_PER_PIXEL: i64 = 65536;

/// The fixed-point scale of an animation fraction: `FRACTION_ONE` stands for 1.0.
pub const FRACTION_ONE: u64 = 0x1_0000_0000;

/// A length or coordinate along one screen axis, in 1/65536ths of a logical pixel.
#[derive(Clone, Copy, Debug, PartialEq, Eq, Structural)]
pub struct Pixels(pub i64);

/// Floor division by a positive divisor, as the spec's `/` computes it on `int`.
pub fn floor_div(n: i128, d: i128) -> (q: i128)
    requires
        d > 0,
    ensures
        q == n / d,
{
    if n >= 0 {
        n / d
    } else {
        let m: i128 = -(n + 1);
        let k: i128 = m / d;
        proof {
            lemma_fundamental_div_mod(m as int, d as int);
            let r: int = (d - 1 - m % d) as int;
            assert(n == (-k - 1) * d + r) by (nonlinear_arith)
                requires
                    m == d * k + m % d,
                    m == -(n + 1),
                    r == d - 1 - m % d,
            ;
            lemma_fundamental_div_mod_converse(n as int, d as int, -k - 1, r);
        }
        -k - 1
    }
}


impl Pixels {
    /// The length as a number of 1/65536 px steps.
    pub open spec fn val(self) -> int {
        self.0 as int
    }
}

/// A whole number of logical pixels.
pub fn px(whole: i64) -> (p: Pixels)
    requires
        fits_i64(whole * 65536),
    ensures
        p.val() == whole * 65536,
{
    Pixels(whole * SUBPIXELS_PER_PIXEL)
}

/// Two lengths lie less than a thousandth of a pixel apart.
pub open spec fn lengths_near(actual: Pixels, expected: Pixels) -> bool {
    abs_int(actual.val() - expected.val()) * 1000 < 65536
}

/// Whether two lengths lie less than a thousandth of a pixel apart.
pub fn pixels_near(actual: Pixels, expected: Pixels) -> (near: bool)
    ensures
        near == lengths_near(actual, expected),
{
    let diff: i128 = actual.0 as i128 - expected.0 as i128;
    let magnitude: i128 = if diff < 0 { -diff } else { diff };
    magnitude * 1000 < SUBPIXELS_PER_PIXEL as i128
}

/// The assertion that two lengths lie less than a thousandth of a pixel apart: it returns
/// for lengths that do, and admits no others, as the assertion fails on them.
pub fn assert_pixels_near(actual: Pixels, expected: Pixels)
    requires
        lengths_near(actual, expected),
{
}

/// The absolute value of an integer.
pub open spec fn abs_int(x: int) -> int {
    if x < 0 { -x } else { x }
}

/// The smaller of two integers.
pub open spec fn min_int(a: int, b: int) -> int {
    if a <= b { a } else { b }
}

/// The larger of two integers.
pub open spec fn max_int(a: int, b: int) -> int {
    if a >= b { a } else { b }
}

/// The point a fraction `delta` (of `FRACTION_ONE`) of the way from `start` to `end`,
/// rounded down to the step below.
pub open spec fn lerp(start: int, end: int, delta: int) -> int {
    start + (end - start) * delta / (FRACTION_ONE as int)
}

/// A step from `start` towards `end` never leaves the range between the two, and the
/// fractions 0 and `FRACTION_ONE` give the two ends.
pub proof fn lemma_lerp_between(start: int, end: int, delta: int)
    requires
        0 <= delta <= FRACTION_ONE,
    ensures
        min_int(start, end) <= lerp(start, end, delta) <= max_int(start, end),
        lerp(start, end, 0) == start,
        lerp(start, end, FRACTION_ONE as int) == end,
{
    let one = FRACTION_ONE as int;
    let diff = end - start;
    let p = diff * delta;
    assert(0int * delta == 0);
    assert(diff * one / one == diff) by {
        lemma_div_multiples_vanish(diff, one);
        assert(one * diff == diff * one) by (nonlinear_arith);
    }
    if diff >= 0 {
        assert(0 <= p <= diff * one) by (nonlinear_arith)
            requires
                diff >= 0,
                0 <= delta <= one,
                p == diff * delta,
        ;
        lemma_div_is_ordered(0, p, one);
        lemma_div_is_ordered(p, diff * one, one);
    } else {
        assert(diff * one <= p <= 0) by (nonlinear_arith)
            requires
                diff < 0,
                0 <= delta <= one,
                p == diff * delta,
        ;
        lemma_div_is_ordered(p, 0, one);
        lemma_div_is_ordered(diff * one, p, one);
    }
}

/// The length a fraction `delta` (of `FRACTION_ONE`, and any fraction: below 0 or past 1
/// it lies beyond an end) of the way from `start` to `end`.
pub fn interpolate_pixels(start: Pixels, end: Pixels, delta: i64) -> (r: Pixels)
    requires
        fits_i64(lerp(start.val(), end.val(), delta as int)),
    ensures
        r.val() == lerp(start.val(), end.val(), delta as int),
{
    let diff: i128 = end.0 as i128 - start.0 as i128;
    proof {
        let one = FRACTION_ONE as int;
        let p = diff * delta;
        let q = p / one;
        lemma_fundamental_div_mod(p, one);
        assert(-0x2_0000_0000_0000_0000 <= q <= 0x2_0000_0000_0000_0000);
        assert(-0x1_0000_0000_0000_0000_0000_0000_0000 <= p <= 0x1_0000_0000_0000_0000_0000_0000_0000)
            by (nonlinear_arith)
            requires
                p == one * q + p % one,
                0 <= p % one < one,
                one == 0x1_0000_0000,
                -0x2_0000_0000_0000_0000 <= q <= 0x2_0000_0000_0000_0000,
        ;
    }
    let scaled: i128 = diff * delta as i128;
    let step: i128 = floor_div(scaled, FRACTION_ONE as i128);
    Pixels((start.0 as i128 + step) as i64)
}


/// A position on screen; `y` grows downwards.
#[derive(Clone, Copy, Debug, PartialEq, Eq, Structural)]
pub struct Point {
    pub x: Pixels,
    pub y: Pixels,
}

/// The point at `x`, `y`.
pub fn point(x: Pixels, y: Pixels) -> (p: Point)
    ensures
        p == (Point { x, y }),
{
    Point { x, y }
}

/// The point a fraction `delta` of the way from `start` to `end`, on each axis apart.
pub open spec fn lerp_point(start: Point, end: Point, delta: int) -> Point {
    Point {
        x: Pixels(lerp(start.x.val(), end.x.val(), delta) as i64),
        y: Pixels(lerp(start.y.val(), end.y.val(), delta) as i64),
    }
}

/// The point a fraction `delta` of the way from `start` to `end`, on each axis apart.
pub fn interpolate_point(start: Point, end: Point, delta: i64) -> (r: Point)
    requires
        fits_i64(lerp(start.x.val(), end.x.val(), delta as int)),
        fits_i64(lerp(start.y.val(), end.y.val(), delta as int)),
    ensures
        r == lerp_point(start, end, delta as int),
        r.x.val() == lerp(start.x.val(), end.x.val(), delta as int),
        r.y.val() == lerp(start.y.val(), end.y.val(), delta as int),
{
    point(interpolate_pixels(start.x, end.x, delta), interpolate_pixels(start.y, end.y, delta))
}

/// A width and a height.
#[derive(Clone, Copy, Debug, PartialEq, Eq, Structural)]
pub struct Size {
    pub width: Pixels,
    pub height: Pixels,
}

/// A size of `width` by `height`.
pub fn size(width: Pixels, height: Pixels) -> (s: Size)
    ensures
        s == (Size { width, height }),
{
    Size { width, height }
}

/// A rectangle: its top-left corner and its size.
#[derive(Clone, Copy, Debug, PartialEq, Eq, Structural)]
pub struct Bounds {
    pub origin: Point,
    pub size: Size,
}

/// Whether an integer can be stored as a coordinate.
pub open spec fn fits_i64(x: int) -> bool {
    i64::MIN <= x <= i64::MAX
}

impl Bounds {
    /// The x of the left edge.
    pub open spec fn left_edge(self) -> int {
        self.origin.x.val()
    }

    /// The y of the top edge.
    pub open spec fn top_edge(self) -> int {
        self.origin.y.val()
    }

    /// The x of the right edge: the left edge moved by the width.
    pub open spec fn right_edge(self) -> int {
        self.origin.x.val() + self.size.width.val()
    }

    /// The y of the bottom edge: the top edge moved by the height.
    pub open spec fn bottom_edge(self) -> int {
        self.origin.y.val() + self.size.height.val()
    }

    /// The right and bottom edges can be stored as coordinates.
    pub open spec fn edges_fit(self) -> bool {
        fits_i64(self.right_edge()) && fits_i64(self.bottom_edge())
    }

    /// The width and the height are not negative.
    pub open spec fn is_upright(self) -> bool {
        self.size.width.val() >= 0 && self.size.height.val() >= 0
    }

    /// Whether a point lies in the rectangle, its edges included.
    pub open spec fn holds(self, p: Point) -> bool {
        &&& self.left_edge() <= p.x.val() <= self.right_edge()
        &&& self.top_edge() <= p.y.val() <= self.bottom_edge()
    }

    /// The x of the left edge.
    pub fn left(&self) -> (r: Pixels)
        ensures
            r.val() == self.left_edge(),
    {
        self.origin.x
    }

    /// The y of the top edge.
    pub fn top(&self) -> (r: Pixels)
        ensures
            r.val() == self.top_edge(),
    {
        self.origin.y
    }

    /// The x of the right edge.
    pub fn right(&self) -> (r: Pixels)
        requires
            self.edges_fit(),
        ensures
            r.val() == self.right_edge(),
    {
        Pixels(self.origin.x.0 + self.size.width.0)
    }

    /// The y of the bottom edge.
    pub fn bottom(&self) -> (r: Pixels)
        requires
            self.edges_fit(),
        ensures
            r.val() == self.bottom_edge(),
    {
        Pixels(self.origin.y.0 + self.size.height.0)
    }

    /// The rectangle with `top_left` and `bottom_right` as opposite corners.
    pub fn from_corners(top_left: Point, bottom_right: Point) -> (b: Bounds)
        requires
            fits_i64(bottom_right.x.val() - top_left.x.val()),
            fits_i64(bottom_right.y.val() - top_left.y.val()),
        ensures
            b.origin == top_left,
            b.right_edge() == bottom_right.x.val(),
            b.bottom_edge() == bottom_right.y.val(),
            b.edges_fit(),
    {
        Bounds {
            origin: top_left,
            size: Size {
                width: Pixels(bottom_right.x.0 - top_left.x.0),
                height: Pixels(bottom_right.y.0 - top_left.y.0),
            },
        }
    }
}

/// The union of two rectangles can be stored: its width and height fit.
pub open spec fn union_fits(first: Bounds, second: Bounds) -> bool {
    &&& fits_i64(
        max_int(first.right_edge(), second.right_edge()) - min_int(
            first.left_edge(),
            second.left_edge(),
        ),
    )
    &&& fits_i64(
        max_int(first.bottom_edge(), second.bottom_edge()) - min_int(
            first.top_edge(),
            second.top_edge(),
        ),
    )
}

/// The smallest rectangle that covers both rectangles: the leftmost left edge, the
/// topmost top edge, the rightmost right edge and the lowest bottom edge.
pub open spec fn bounds_union(first: Bounds, second: Bounds) -> Bounds {
    let left = min_int(first.left_edge(), second.left_edge());
    let top = min_int(first.top_edge(), second.top_edge());
    let right = max_int(first.right_edge(), second.right_edge());
    let bottom = max_int(first.bottom_edge(), second.bottom_edge());
    Bounds {
        origin: Point { x: Pixels(left as i64), y: Pixels(top as i64) },
        size: Size { width: Pixels((right - left) as i64), height: Pixels((bottom - top) as i64) },
    }
}

/// The smallest rectangle that covers both rectangles: the leftmost left edge, the
/// topmost top edge, the rightmost right edge and the lowest bottom edge.
pub fn union_bounds(first: Bounds, second: Bounds) -> (u: Bounds)
    requires
        first.edges_fit(),
        second.edges_fit(),
        union_fits(first, second),
    ensures
        u == bounds_union(first, second),
        u.left_edge() == min_int(first.left_edge(), second.left_edge()),
        u.top_edge() == min_int(first.top_edge(), second.top_edge()),
        u.right_edge() == max_int(first.right_edge(), second.right_edge()),
        u.bottom_edge() == max_int(first.bottom_edge(), second.bottom_edge()),
        u.edges_fit(),
{
    let left = min_pixels(first.left(), second.left());
    let top = min_pixels(first.top(), second.top());
    let right = max_pixels(first.right(), second.right());
    let bottom = max_pixels(first.bottom(), second.bottom());
    Bounds::from_corners(point(left, top), point(right, bottom))
}

/// The smaller of two lengths.
pub fn min_pixels(a: Pixels, b: Pixels) -> (r: Pixels)
    ensures
        r.val() == min_int(a.val(), b.val()),
{
    if a.0 <= b.0 { a } else { b }
}

/// The larger of two lengths.
pub fn max_pixels(a: Pixels, b: Pixels) -> (r: Pixels)
    ensures
        r.val() == max_int(a.val(), b.val()),
{
    if a.0 >= b.0 { a } else { b }
}

/// Whether a motion from one point to another moves along both axes at once.
pub fn is_diagonal_motion(trail_origin: Point, target_origin: Point) -> (diagonal: bool)
    ensures
        diagonal == (trail_origin.x != target_origin.x && trail_origin.y != target_origin.y),
{
    trail_origin.x.0 != target_origin.x.0 && trail_origin.y.0 != target_origin.y.0
}

/// The four corners of a rectangle.
#[derive(Clone, Copy, Debug, PartialEq, Eq, Structural)]
pub struct RectCorners {
    pub top_left: Point,
    pub top_right: Point,
    pub bottom_right: Point,
    pub bottom_left: Point,
}

/// The corners of `b`, named by where they lie.
pub open spec fn corners_of(b: Bounds) -> RectCorners {
    RectCorners {
        top_left: b.origin,
        top_right: Point { x: Pixels(b.right_edge() as i64), y: b.origin.y },
        bottom_right: Point { x: Pixels(b.right_edge() as i64), y: Pixels(b.bottom_edge() as i64) },
        bottom_left: Point { x: b.origin.x, y: Pixels(b.bottom_edge() as i64) },
    }
}

impl RectCorners {
    /// The corners of `bounds`.
    pub fn from_bounds(bounds: Bounds) -> (c: RectCorners)
        requires
            bounds.edges_fit(),
        ensures
            c == corners_of(bounds),
    {
        RectCorners {
            top_left: bounds.origin,
            top_right: point(bounds.right(), bounds.top()),
            bottom_right: point(bounds.right(), bounds.bottom()),
            bottom_left: point(bounds.left(), bounds.bottom()),
        }
    }
}

/// How many points outline a trail.
pub const TRAIL_POLYGON_POINTS: usize = 6;

/// The outline swept by a rectangle that moves from `trail` to `target`, when the
/// motion goes right (`rightwards`) or not, and down (`downwards`) or not: two corners
/// of the trailing rectangle, the three far corners of the target, and one more corner
/// of the trailing rectangle, in order round the shape.
pub open spec fn trail_outline(
    trail: RectCorners,
    target: RectCorners,
    rightwards: bool,
    downwards: bool,
) -> Seq<Point> {
    if rightwards && downwards {
        seq![
            trail.top_left,
            trail.top_right,
            target.top_right,
            target.bottom_right,
            target.bottom_left,
            trail.bottom_left,
        ]
    } else if rightwards {
        seq![
            trail.bottom_left,
            trail.top_left,
            target.top_left,
            target.top_right,
            target.bottom_right,
            trail.bottom_right,
        ]
    } else if downwards {
        seq![
            trail.top_right,
            trail.bottom_right,
            target.bottom_right,
            target.bottom_left,
            target.top_left,
            trail.top_left,
        ]
    } else {
        seq![
            trail.bottom_right,
            trail.bottom_left,
            target.bottom_left,
            target.top_left,
            target.top_right,
            trail.top_right,
        ]
    }
}

/// The outline of the trail a cursor leaves when it moves from `trail_origin` (drawn
/// as `trail_bounds`) to `target_origin` (drawn as `target_bounds`).
pub fn cursor_trail_polygon_between(
    trail_bounds: Bounds,
    target_bounds: Bounds,
    trail_origin: Point,
    target_origin: Point,
) -> (polygon: [Point; TRAIL_POLYGON_POINTS])
    requires
        trail_bounds.edges_fit(),
        target_bounds.edges_fit(),
    ensures
        polygon@ == trail_outline(
            corners_of(trail_bounds),
            corners_of(target_bounds),
            target_origin.x.val() > trail_origin.x.val(),
            target_origin.y.val() > trail_origin.y.val(),
        ),
{
    let trail = RectCorners::from_bounds(trail_bounds);
    let target = RectCorners::from_bounds(target_bounds);
    let rightwards = target_origin.x.0 > trail_origin.x.0;
    let downwards = target_origin.y.0 > trail_origin.y.0;
    let polygon = if rightwards && downwards {
        [
            trail.top_left,
            trail.top_right,
            target.top_right,
            target.bottom_right,
            target.bottom_left,
            trail.bottom_left,
        ]
    } else if rightwards {
        [
            trail.bottom_left,
            trail.top_left,
            target.top_left,
            target.top_right,
            target.bottom_right,
            trail.bottom_right,
        ]
    } else if downwards {
        [
            trail.top_right,
            trail.bottom_right,
            target.bottom_right,
            target.bottom_left,
            target.top_left,
            trail.top_left,
        ]
    } else {
        [
            trail.bottom_right,
            trail.bottom_left,
            target.bottom_left,
            target.top_left,
            target.top_right,
            trail.top_right,
        ]
    };
    assert(polygon@ =~= trail_outline(trail, target, rightwards, downwards));
    polygon
}

} // verus!
