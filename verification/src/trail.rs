use vstd::prelude::*;
use crate::geometry::{
    Bounds, Pixels, Point, TRAIL_POLYGON_POINTS, bounds_union, corners_of,
    cursor_trail_polygon_between, fits_i64, is_diagonal_motion, max_int, min_int, trail_outline,
    union_bounds, union_fits,
};

verus! {

/// The shape a moving cursor leaves behind: the rectangle that covers it, and for a
/// diagonal motion the outline of the swept area.
#[derive(Clone, Copy, Debug, PartialEq, Eq)]
pub struct CursorShapeTrail {
    pub bounds: Bounds,
    pub polygon: Option<[Point; TRAIL_POLYGON_POINTS]>,
}

/// `trail` is the trail of a cursor drawn as `trail_bounds` at `trail_origin` and as
/// `target_bounds` at `target_origin`: it is covered by the union of the two rectangles,
/// and it has an outline, the one the motion sweeps, exactly when the motion is diagonal.
pub open spec fn is_trail_between(
    trail: CursorShapeTrail,
    trail_bounds: Bounds,
    target_bounds: Bounds,
    trail_origin: Point,
    target_origin: Point,
) -> bool {
    &&& trail.bounds == bounds_union(trail_bounds, target_bounds)
    &&& trail.polygon is Some <==> (trail_origin.x != target_origin.x && trail_origin.y
        != target_origin.y)
    &&& trail.polygon matches Some(polygon) ==> polygon@ == trail_outline(
        corners_of(trail_bounds),
        corners_of(target_bounds),
        target_origin.x.val() > trail_origin.x.val(),
        target_origin.y.val() > trail_origin.y.val(),
    )
}

/// `p` moved by `offset` on each axis.
pub open spec fn shifted(p: Point, offset: Point) -> Point {
    Point {
        x: Pixels((p.x.val() + offset.x.val()) as i64),
        y: Pixels((p.y.val() + offset.y.val()) as i64),
    }
}

/// `p` moved by `offset` can be stored.
pub open spec fn shift_fits(p: Point, offset: Point) -> bool {
    fits_i64(p.x.val() + offset.x.val()) && fits_i64(p.y.val() + offset.y.val())
}

/// `p` moved by `offset` on each axis.
pub fn shift_point(p: Point, offset: Point) -> (q: Point)
    requires
        shift_fits(p, offset),
    ensures
        q == shifted(p, offset),
{
    Point { x: Pixels(p.x.0 + offset.x.0), y: Pixels(p.y.0 + offset.y.0) }
}

/// Whether the right and bottom edges of `b` can be stored.
fn edges_fit_check(b: Bounds) -> (fits: bool)
    ensures
        fits == b.edges_fit(),
{
    let right: i128 = b.origin.x.0 as i128 + b.size.width.0 as i128;
    let bottom: i128 = b.origin.y.0 as i128 + b.size.height.0 as i128;
    i64::MIN as i128 <= right && right <= i64::MAX as i128 && i64::MIN as i128 <= bottom && bottom
        <= i64::MAX as i128
}

/// Whether the union of two rectangles whose edges can be stored can be stored too.
fn union_fits_check(first: Bounds, second: Bounds) -> (fits: bool)
    requires
        first.edges_fit(),
        second.edges_fit(),
    ensures
        fits == union_fits(first, second),
{
    let l1 = first.origin.x.0 as i128;
    let l2 = second.origin.x.0 as i128;
    let t1 = first.origin.y.0 as i128;
    let t2 = second.origin.y.0 as i128;
    let r1 = l1 + first.size.width.0 as i128;
    let r2 = l2 + second.size.width.0 as i128;
    let b1 = t1 + first.size.height.0 as i128;
    let b2 = t2 + second.size.height.0 as i128;
    let left = if l1 <= l2 { l1 } else { l2 };
    let top = if t1 <= t2 { t1 } else { t2 };
    let right = if r1 >= r2 { r1 } else { r2 };
    let bottom = if b1 >= b2 { b1 } else { b2 };
    assert(left == min_int(first.left_edge(), second.left_edge()));
    assert(right == max_int(first.right_edge(), second.right_edge()));
    let width = right - left;
    let height = bottom - top;
    i64::MIN as i128 <= width && width <= i64::MAX as i128 && i64::MIN as i128 <= height && height
        <= i64::MAX as i128
}

impl CursorShapeTrail {
    /// The trail of a cursor drawn as `trail_bounds` at its trailing end (`trail_origin`)
    /// and as `target_bounds` at its target (`target_origin`): it covers both rectangles,
    /// and has an outline exactly when the motion is diagonal.
    pub fn between(
        trail_bounds: Bounds,
        target_bounds: Bounds,
        trail_origin: Point,
        target_origin: Point,
    ) -> (trail: Self)
        requires
            trail_bounds.edges_fit(),
            target_bounds.edges_fit(),
            union_fits(trail_bounds, target_bounds),
        ensures
            is_trail_between(trail, trail_bounds, target_bounds, trail_origin, target_origin),
    {
        let bounds = union_bounds(trail_bounds, target_bounds);
        let polygon = if is_diagonal_motion(trail_origin, target_origin) {
            Some(
                cursor_trail_polygon_between(
                    trail_bounds,
                    target_bounds,
                    trail_origin,
                    target_origin,
                ),
            )
        } else {
            None
        };
        Self { bounds, polygon }
    }

    /// The trail between two cursor rectangles, as `between` gives it, or `None` where its
    /// covering rectangle cannot be stored.
    pub fn try_between(
        trail_bounds: Bounds,
        target_bounds: Bounds,
        trail_origin: Point,
        target_origin: Point,
    ) -> (trail: Option<Self>)
        ensures
            trail is Some <==> (trail_bounds.edges_fit() && target_bounds.edges_fit() && union_fits(
                trail_bounds,
                target_bounds,
            )),
            trail matches Some(trail) ==> is_trail_between(
                trail,
                trail_bounds,
                target_bounds,
                trail_origin,
                target_origin,
            ),
    {
        if edges_fit_check(trail_bounds) && edges_fit_check(target_bounds) && union_fits_check(
            trail_bounds,
            target_bounds,
        ) {
            Some(Self::between(trail_bounds, target_bounds, trail_origin, target_origin))
        } else {
            None
        }
    }

    /// The rectangle that covers the trail.
    pub fn bounds(&self) -> (bounds: Bounds)
        ensures
            bounds == self.bounds,
    {
        self.bounds
    }

    /// The covering rectangle and the outline, moved by `origin`: where the trail is painted
    /// when its coordinates are taken from `origin`.
    pub fn placed_at(&self, origin: Point) -> (placed: (Bounds, Option<[Point; TRAIL_POLYGON_POINTS]>))
        requires
            shift_fits(self.bounds.origin, origin),
            self.polygon matches Some(polygon) ==> forall|i: int|
                0 <= i < TRAIL_POLYGON_POINTS ==> shift_fits(#[trigger] polygon@[i], origin),
        ensures
            placed.0 == (Bounds { origin: shifted(self.bounds.origin, origin), size: self.bounds.size }),
            placed.1 is Some <==> self.polygon is Some,
            placed.1 matches Some(moved) ==> moved@ == self.polygon.unwrap()@.map_values(
                |p: Point| shifted(p, origin),
            ),
    {
        let bounds = Bounds { origin: shift_point(self.bounds.origin, origin), size: self.bounds.size };
        let polygon = match &self.polygon {
            Some(polygon) => {
                let moved = [
                    shift_point(polygon[0], origin),
                    shift_point(polygon[1], origin),
                    shift_point(polygon[2], origin),
                    shift_point(polygon[3], origin),
                    shift_point(polygon[4], origin),
                    shift_point(polygon[5], origin),
                ];
                assert(moved@ =~= polygon@.map_values(|p: Point| shifted(p, origin)));
                Some(moved)
            },
            None => None,
        };
        (bounds, polygon)
    }
}

} // verus!
