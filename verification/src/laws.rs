//! What holds of the animation across its functions.
use vstd::prelude::*;
use vstd::arithmetic::div_mod::{
    lemma_div_is_ordered, lemma_div_multiples_vanish, lemma_fundamental_div_mod,
    lemma_fundamental_div_mod_converse,
};
use crate::animation::{
    CursorAnimationState, DisplayPoint, frame_at, settled_state, still_frame, updated,
};
use crate::geometry::{
    Bounds, FRACTION_ONE, Point, bounds_union, corners_of, lemma_lerp_between, lerp_point,
    trail_outline, union_fits,
};
use crate::registry::{
    CursorAnimationKey, CursorAnimationSelection, LOCAL_REPLICA, ReplicaId, hidden_synced,
    selection_key,
};
use crate::settings::CursorAnimationFrameContext;
use crate::animation::DisplayRow;
use crate::geometry::Pixels;
use crate::viewport::{
    CursorAnimationViewport, RowLayout, ScrollOffset, ScrollPixelOffset, TextAlign,
    cursor_origin_x, cursor_origin_y,
};
use crate::settings::CursorAnimationSettings;
use crate::timing::{Timestamp, animation_delta, eased, millis_as_nanos, nanos_between};

verus! {

/// Easing keeps a fraction within `0..=1`, leaves 0 and 1 where they are, never lags
/// behind the plain fraction, and never goes backwards as the fraction grows.
pub proof fn law_easing_shape(d1: int, d2: int)
    requires
        0 <= d1 <= d2 <= FRACTION_ONE,
    ensures
        eased(0) == 0,
        eased(FRACTION_ONE as int) == FRACTION_ONE,
        d1 <= eased(d1) <= FRACTION_ONE,
        eased(d1) <= eased(d2),
{
    let one = FRACTION_ONE as int;
    let sq = one * one;
    assert(sq == 0x1_0000_0000_0000_0000);
    let r1 = one - d1;
    let r2 = one - d2;
    assert(one * one * one / sq == one) by {
        lemma_div_multiples_vanish(one, sq);
        assert(sq * one == one * one * one) by (nonlinear_arith)
            requires
                sq == one * one,
        ;
    }
    assert(0int * 0 * 0 / sq == 0);
    assert(0 <= r2 * r2 * r2 <= r1 * r1 * r1 <= r1 * sq) by (nonlinear_arith)
        requires
            0 <= r2 <= r1 <= one,
            sq == one * one,
    ;
    lemma_div_is_ordered(r2 * r2 * r2, r1 * r1 * r1, sq);
    lemma_div_is_ordered(r1 * r1 * r1, r1 * sq, sq);
    lemma_div_is_ordered(0, r2 * r2 * r2, sq);
    lemma_div_multiples_vanish(r1, sq);
    assert(sq * r1 == r1 * sq) by (nonlinear_arith);
    assert(eased(FRACTION_ONE as int) == FRACTION_ONE);
}

/// How far an animation has got never goes backwards as time passes; it is 0 at the
/// moment it starts (for a nonzero duration), and 1 once the duration has passed or for a
/// zero duration.
pub proof fn law_animation_progress(started_at: Timestamp, duration_ms: u64, t1: Timestamp, t2: Timestamp)
    requires
        t1.nanos <= t2.nanos,
    ensures
        0 <= animation_delta(started_at, duration_ms, t1) <= animation_delta(
            started_at,
            duration_ms,
            t2,
        ) <= FRACTION_ONE,
        duration_ms > 0 ==> animation_delta(started_at, duration_ms, started_at) == 0,
        nanos_between(started_at, t1) >= millis_as_nanos(duration_ms) ==> animation_delta(
            started_at,
            duration_ms,
            t1,
        ) == FRACTION_ONE,
{
    let one = FRACTION_ONE as int;
    if duration_ms > 0 {
        let span = millis_as_nanos(duration_ms);
        let e1 = nanos_between(started_at, t1);
        let e2 = nanos_between(started_at, t2);
        assert(0 <= e1 * one <= e2 * one) by (nonlinear_arith)
            requires
                0 <= e1 <= e2,
                one > 0,
        ;
        lemma_div_is_ordered(e1 * one, e2 * one, span);
        lemma_div_is_ordered(0, e1 * one, span);
        assert(0int * one == 0);
        if e1 >= span {
            assert(span * one <= e1 * one) by (nonlinear_arith)
                requires
                    span <= e1,
                    one > 0,
            ;
            lemma_div_is_ordered(span * one, e1 * one, span);
            lemma_div_multiples_vanish(one, span);
            assert(span * one == one * span) by (nonlinear_arith);
        }
    }
}

/// A cursor that has just settled is drawn still at its place: not animating, with no
/// trail, whether or not movement is enabled. (This needs the clock to reach a whole
/// duration back from `now`; where it does not, the settled animation starts at `now`.)
pub proof fn law_settled_state_is_still(
    logical_position: DisplayPoint,
    origin: Point,
    now: Timestamp,
    duration: u64,
    movement_enabled: bool,
)
    requires
        now.nanos >= millis_as_nanos(duration),
    ensures
        frame_at(settled_state(logical_position, origin, now, duration), now, movement_enabled)
            == still_frame(origin),
{
    let state = settled_state(logical_position, origin, now, duration);
    law_animation_progress(state.started_at, duration, now, now);
    law_easing_shape(FRACTION_ONE as int, FRACTION_ONE as int);
    lemma_lerp_between(origin.x.val(), origin.x.val(), FRACTION_ONE as int);
    lemma_lerp_between(origin.y.val(), origin.y.val(), FRACTION_ONE as int);
    assert(lerp_point(origin, origin, FRACTION_ONE as int) == origin);
}

/// Once an animation has run its whole duration, the cursor is drawn at its target and
/// the animation counts as over; a trail, if drawn, has shrunk to the target.
pub proof fn law_finished_animation_rests_at_target(
    state: CursorAnimationState,
    now: Timestamp,
    movement_enabled: bool,
)
    requires
        nanos_between(state.started_at, now) >= millis_as_nanos(state.duration),
    ensures
        frame_at(state, now, movement_enabled).origin == state.target_origin,
        !frame_at(state, now, movement_enabled).is_animating,
        state.draw_trail ==> frame_at(state, now, movement_enabled).trail_origin == Some(
            state.target_origin,
        ),
{
    law_animation_progress(state.started_at, state.duration, now, now);
    law_easing_shape(FRACTION_ONE as int, FRACTION_ONE as int);
    lemma_lerp_between(state.start_origin.x.val(), state.target_origin.x.val(), FRACTION_ONE as int);
    lemma_lerp_between(state.start_origin.y.val(), state.target_origin.y.val(), FRACTION_ONE as int);
    assert(lerp_point(state.start_origin, state.target_origin, FRACTION_ONE as int)
        == state.target_origin);
}

/// Without movement, or while a trail is drawn, the cursor itself is always drawn at its
/// target; only the trail moves.
pub proof fn law_cursor_jumps_unless_it_glides(
    state: CursorAnimationState,
    now: Timestamp,
    movement_enabled: bool,
)
    requires
        !movement_enabled || state.draw_trail,
    ensures
        frame_at(state, now, movement_enabled).origin == state.target_origin,
        (frame_at(state, now, movement_enabled).trail_origin is Some) == state.draw_trail,
{
}

/// Whatever came before, the animation a cursor keeps targets the place it is drawn at
/// now and the place in the text it stands at now; a frame that does not animate draws
/// the cursor still at that place; and a cursor not seen before is drawn still.
pub proof fn law_update_follows_the_cursor(
    state: Option<CursorAnimationState>,
    logical_position: DisplayPoint,
    target_origin: Point,
    now: Timestamp,
    duration: u64,
    settings: CursorAnimationSettings,
    trail_enabled: bool,
)
    ensures
        ({
            let (frame, next) = updated(
                state,
                logical_position,
                target_origin,
                now,
                duration,
                settings,
                trail_enabled,
            );
            &&& next.target_origin == target_origin
            &&& next.logical_position == logical_position
            &&& next.duration == duration
            &&& !frame.is_animating ==> frame == still_frame(target_origin)
            &&& state is None ==> frame == still_frame(target_origin)
        }),
{
}

/// The frame an update hands back is the frame of the animation it keeps (where the clock
/// reaches a whole duration back from `now`): the next frame carries on from it.
pub proof fn law_update_frame_matches_kept_state(
    state: Option<CursorAnimationState>,
    logical_position: DisplayPoint,
    target_origin: Point,
    now: Timestamp,
    duration: u64,
    settings: CursorAnimationSettings,
    trail_enabled: bool,
)
    requires
        now.nanos >= millis_as_nanos(duration),
    ensures
        ({
            let (frame, next) = updated(
                state,
                logical_position,
                target_origin,
                now,
                duration,
                settings,
                trail_enabled,
            );
            frame == frame_at(next, now, settings.movement)
        }),
{
    law_settled_state_is_still(logical_position, target_origin, now, duration, settings.movement);
}

/// A cursor that stays at its place in the text but is drawn elsewhere (the layout moved
/// under it) snaps to the new place at once: no animation, no trail (where the clock
/// reaches a whole duration back from `now`).
pub proof fn law_layout_move_snaps(
    state: CursorAnimationState,
    target_origin: Point,
    now: Timestamp,
    duration: u64,
    settings: CursorAnimationSettings,
    trail_enabled: bool,
)
    requires
        state.target_origin != target_origin,
        now.nanos >= millis_as_nanos(duration),
    ensures
        ({
            let (frame, next) = updated(
                Some(state),
                state.logical_position,
                target_origin,
                now,
                duration,
                settings,
                trail_enabled,
            );
            &&& frame == still_frame(target_origin)
            &&& next == settled_state(state.logical_position, target_origin, now, duration)
        }),
{
    law_settled_state_is_still(
        state.logical_position,
        target_origin,
        now,
        duration,
        settings.movement,
    );
}

/// The rectangle that covers a trail holds every point of both ends of the trail.
pub proof fn law_union_covers_both(first: Bounds, second: Bounds, p: Point)
    requires
        first.edges_fit(),
        second.edges_fit(),
        union_fits(first, second),
        first.holds(p) || second.holds(p),
    ensures
        bounds_union(first, second).holds(p),
{
}

/// The union of two rectangles does not depend on their order, and any upright rectangle
/// that holds both rectangles' corners holds the union's corners too: the union is the
/// smallest rectangle that covers both.
pub proof fn law_union_is_least_and_symmetric(first: Bounds, second: Bounds, cover: Bounds)
    requires
        first.edges_fit(),
        second.edges_fit(),
        union_fits(first, second),
        first.is_upright(),
        second.is_upright(),
        cover.holds(first.origin),
        cover.holds(corners_of(first).bottom_right),
        cover.holds(second.origin),
        cover.holds(corners_of(second).bottom_right),
    ensures
        bounds_union(first, second) == bounds_union(second, first),
        cover.holds(bounds_union(first, second).origin),
        cover.holds(corners_of(bounds_union(first, second)).bottom_right),
{
}

/// Every point of a trail's outline lies within the rectangle that covers the trail.
pub proof fn law_trail_outline_within_bounds(
    trail_bounds: Bounds,
    target_bounds: Bounds,
    rightwards: bool,
    downwards: bool,
    i: int,
)
    requires
        trail_bounds.edges_fit(),
        target_bounds.edges_fit(),
        trail_bounds.is_upright(),
        target_bounds.is_upright(),
        union_fits(trail_bounds, target_bounds),
        0 <= i < 6,
    ensures
        trail_outline(corners_of(trail_bounds), corners_of(target_bounds), rightwards, downwards).len()
            == 6,
        bounds_union(trail_bounds, target_bounds).holds(
            trail_outline(
                corners_of(trail_bounds),
                corners_of(target_bounds),
                rightwards,
                downwards,
            )[i],
        ),
{
    let outline = trail_outline(
        corners_of(trail_bounds),
        corners_of(target_bounds),
        rightwards,
        downwards,
    );
    let p = outline[i];
    assert(trail_bounds.holds(p) || target_bounds.holds(p));
    law_union_covers_both(trail_bounds, target_bounds, p);
}

/// The newest local selection is animated under one key whatever its own id, so its
/// animation carries on when it is replaced; any other selection keeps a key of its own.
pub proof fn law_newest_local_selection_keeps_its_key(
    replica_id: ReplicaId,
    first_id: usize,
    second_id: usize,
    is_newest: bool,
)
    ensures
        replica_id.0 == LOCAL_REPLICA && is_newest ==> selection_key(replica_id, first_id, is_newest)
            == selection_key(replica_id, second_id, is_newest),
        !(replica_id.0 == LOCAL_REPLICA && is_newest) && first_id != second_id ==> selection_key(
            replica_id,
            first_id,
            is_newest,
        ) != selection_key(replica_id, second_id, is_newest),
{
}

/// A cursor drawn in a frame keeps the animation it was given into the next frame, and a
/// cursor not seen in the frame loses its animation, once the frame is closed with
/// animation in effect.
pub proof fn law_seen_cursors_survive_the_frame(
    states: Map<CursorAnimationKey, CursorAnimationState>,
    active: Set<CursorAnimationKey>,
    key: CursorAnimationKey,
    state: CursorAnimationState,
    other: CursorAnimationKey,
)
    ensures
        states.insert(key, state).restrict(active.insert(key)).contains_key(key),
        states.insert(key, state).restrict(active.insert(key))[key] == state,
        !active.insert(key).contains(other) ==> !states.insert(key, state).restrict(
            active.insert(key),
        ).contains_key(other),
{
}

/// Settling the cursors that are off screen leaves alone the animation, and the seen
/// mark, of every cursor that is on screen or that no selection names.
pub proof fn law_hidden_sync_leaves_other_cursors_alone(
    states: Map<CursorAnimationKey, CursorAnimationState>,
    active: Set<CursorAnimationKey>,
    selections: Seq<CursorAnimationSelection>,
    row_layouts: Seq<RowLayout>,
    viewport: CursorAnimationViewport,
    frame_context: CursorAnimationFrameContext,
    key: CursorAnimationKey,
)
    requires
        forall|i: int|
            0 <= i < selections.len() && (#[trigger] selections[i]).key == Some(key)
                ==> viewport.shows(selections[i].position),
    ensures
        hidden_synced(states, active, selections, row_layouts, viewport, frame_context).0.get(key)
            == states.get(key),
        hidden_synced(states, active, selections, row_layouts, viewport, frame_context).1.contains(
            key,
        ) == active.contains(key),
    decreases selections.len(),
{
    if selections.len() > 0 {
        let prefix = selections.drop_last();
        assert forall|i: int|
            0 <= i < prefix.len() && (#[trigger] prefix[i]).key == Some(key) implies viewport.shows(
            prefix[i].position,
        ) by {
            assert(prefix[i] == selections[i]);
        }
        law_hidden_sync_leaves_other_cursors_alone(
            states,
            active,
            prefix,
            row_layouts,
            viewport,
            frame_context,
            key,
        );
        assert(selections.last() == selections[selections.len() - 1]);
    }
}

/// Easing is the cubic ease-out at every fraction: the eased fraction `e` of `d` is the
/// largest with `(1 - e)` at least `(1 - d)^3`, counted in steps of `FRACTION_ONE`.
pub proof fn law_easing_is_the_cubic(d: int)
    requires
        0 <= d <= FRACTION_ONE,
    ensures
        ({
            let one = FRACTION_ONE as int;
            let e = eased(d);
            &&& (one - e) * (one * one) <= (one - d) * (one - d) * (one - d)
            &&& (one - d) * (one - d) * (one - d) < (one - e + 1) * (one * one)
        }),
{
    let one = FRACTION_ONE as int;
    let sq = one * one;
    let r = one - d;
    let cube = r * r * r;
    lemma_fundamental_div_mod(cube, sq);
    assert(one - eased(d) == cube / sq);
    assert(sq * (cube / sq) == (cube / sq) * sq) by (nonlinear_arith);
    assert((cube / sq + 1) * sq == (cube / sq) * sq + sq) by (nonlinear_arith);
}

/// Before an animation of nonzero duration has run its course, its progress is the
/// elapsed share of the duration, rounded down at every moment: `delta` steps of
/// `FRACTION_ONE` are no more than the elapsed share, and one more step would be.
pub proof fn law_progress_is_elapsed_share(started_at: Timestamp, duration_ms: u64, now: Timestamp)
    requires
        duration_ms > 0,
        nanos_between(started_at, now) < millis_as_nanos(duration_ms),
    ensures
        ({
            let one = FRACTION_ONE as int;
            let span = millis_as_nanos(duration_ms);
            let elapsed = nanos_between(started_at, now);
            let delta = animation_delta(started_at, duration_ms, now);
            &&& delta * span <= elapsed * one
            &&& elapsed * one < (delta + 1) * span
            &&& (elapsed * one >= span ==> delta > 0)
        }),
{
    let one = FRACTION_ONE as int;
    let span = millis_as_nanos(duration_ms);
    let elapsed = nanos_between(started_at, now);
    let x = elapsed * one;
    assert(0 <= x < span * one) by (nonlinear_arith)
        requires
            0 <= elapsed < span,
            one > 0,
            x == elapsed * one,
    ;
    lemma_div_is_ordered(x, span * one, span);
    lemma_div_multiples_vanish(one, span);
    assert(span * one == one * span) by (nonlinear_arith);
    lemma_fundamental_div_mod(x, span);
    let q = x / span;
    assert(q * span == span * q) by (nonlinear_arith);
    assert((q + 1) * span == q * span + span) by (nonlinear_arith);
    if x >= span {
        lemma_div_is_ordered(span, x, span);
        lemma_div_multiples_vanish(1, span);
        assert(span * 1 == span);
    }
}

/// `p` with its axes swapped.
pub open spec fn transposed(p: Point) -> Point {
    Point { x: p.y, y: p.x }
}

/// An animation with its axes swapped.
pub open spec fn transposed_state(state: CursorAnimationState) -> CursorAnimationState {
    CursorAnimationState {
        start_origin: transposed(state.start_origin),
        target_origin: transposed(state.target_origin),
        ..state
    }
}

/// Both axes move alike: swapping x and y in an animation swaps them in every frame it
/// gives, for the cursor and for the trail. A vertical motion glides just as a horizontal
/// one does.
pub proof fn law_axes_move_alike(state: CursorAnimationState, now: Timestamp, movement_enabled: bool)
    ensures
        frame_at(transposed_state(state), now, movement_enabled).origin == transposed(
            frame_at(state, now, movement_enabled).origin,
        ),
        frame_at(transposed_state(state), now, movement_enabled).trail_origin == (match frame_at(
            state,
            now,
            movement_enabled,
        ).trail_origin {
            Some(p) => Some(transposed(p)),
            None => None,
        }),
        frame_at(transposed_state(state), now, movement_enabled).is_animating == frame_at(
            state,
            now,
            movement_enabled,
        ).is_animating,
{
}

/// `x * 7 / 8`, rounded down, is what seven eighths of `x` come to in 2^-32 steps.
proof fn lemma_seven_eighths(x: int)
    ensures
        x * 0xE000_0000 / 0x1_0000_0000 == x * 7 / 8,
{
    let y = x * 7;
    lemma_fundamental_div_mod(y, 8);
    let q = y / 8;
    let r = y % 8;
    assert(x * 0xE000_0000 == q * 0x1_0000_0000 + r * 0x2000_0000) by (nonlinear_arith)
        requires
            y == x * 7,
            y == 8 * q + r,
    ;
    lemma_fundamental_div_mod_converse(x * 0xE000_0000, 0x1_0000_0000, q, r * 0x2000_0000);
}

/// Halfway through its duration a gliding cursor (movement on, no trail) has covered
/// seven eighths of the way on each axis, rounded down to a step, and is still moving.
pub proof fn law_glide_is_seven_eighths_done_at_half_time(state: CursorAnimationState, now: Timestamp)
    requires
        !state.draw_trail,
        state.duration > 0,
        now.nanos >= state.started_at.nanos,
        2 * nanos_between(state.started_at, now) == millis_as_nanos(state.duration),
    ensures
        frame_at(state, now, true).origin.x.val() == state.start_origin.x.val() + (
        state.target_origin.x.val() - state.start_origin.x.val()) * 7 / 8,
        frame_at(state, now, true).origin.y.val() == state.start_origin.y.val() + (
        state.target_origin.y.val() - state.start_origin.y.val()) * 7 / 8,
        frame_at(state, now, true).is_animating,
{
    let one = FRACTION_ONE as int;
    let span = millis_as_nanos(state.duration);
    let half = nanos_between(state.started_at, now);
    assert(half * one == span * (one / 2)) by (nonlinear_arith)
        requires
            2 * half == span,
            one == 0x1_0000_0000,
    ;
    lemma_div_multiples_vanish(one / 2, span);
    assert(span * (one / 2) == (one / 2) * span) by (nonlinear_arith);
    assert(animation_delta(state.started_at, state.duration, now) == one / 2);
    assert(eased(one / 2) == 0xE000_0000) by {
        let r = one / 2;
        let sq = one * one;
        assert(r == 0x8000_0000);
        assert(sq == 0x1_0000_0000_0000_0000);
        assert(r * r * r == sq * 0x2000_0000) by (nonlinear_arith)
            requires
                r == 0x8000_0000,
                sq == 0x1_0000_0000_0000_0000,
        ;
        lemma_div_multiples_vanish(0x2000_0000, sq);
    }
    let sx = state.start_origin.x.val();
    let tx = state.target_origin.x.val();
    let sy = state.start_origin.y.val();
    let ty = state.target_origin.y.val();
    lemma_seven_eighths(tx - sx);
    lemma_seven_eighths(ty - sy);
    lemma_lerp_between(sx, tx, 0xE000_0000);
    lemma_lerp_between(sy, ty, 0xE000_0000);
}

/// A cursor that moves again mid-animation does not jump: the new animation starts at the
/// point where the cursor was seen at that moment (the end of its trail if it drew one,
/// else where it was drawn), and the frame handed back at that moment draws the gliding
/// cursor, or the new trail's end, exactly there.
pub proof fn law_restart_does_not_jump(
    state: CursorAnimationState,
    logical_position: DisplayPoint,
    target_origin: Point,
    now: Timestamp,
    duration: u64,
    settings: CursorAnimationSettings,
    trail_enabled: bool,
)
    requires
        state.logical_position != logical_position,
        settings.movement || trail_enabled || state.draw_trail,
        duration > 0,
    ensures
        ({
            let before = frame_at(state, now, settings.movement);
            let seen_at = if state.draw_trail {
                before.trail_origin.unwrap()
            } else {
                before.origin
            };
            let (frame, next) = updated(
                Some(state),
                logical_position,
                target_origin,
                now,
                duration,
                settings,
                trail_enabled,
            );
            &&& next.start_origin == seen_at
            &&& next.started_at == now
            &&& next.target_origin == target_origin
            &&& frame.is_animating
            &&& (settings.movement && !trail_enabled ==> frame.origin == seen_at)
            &&& (trail_enabled ==> frame.trail_origin == Some(seen_at))
        }),
{
    let before = frame_at(state, now, settings.movement);
    let seen_at = if state.draw_trail {
        before.trail_origin.unwrap()
    } else {
        before.origin
    };
    law_animation_progress(now, duration, now, now);
    law_easing_shape(0, 0);
    lemma_lerp_between(seen_at.x.val(), target_origin.x.val(), 0);
    lemma_lerp_between(seen_at.y.val(), target_origin.y.val(), 0);
    assert(lerp_point(seen_at, target_origin, 0) == seen_at);
}

/// Scrolling sideways moves every cursor the other way by exactly the scroll, whatever the
/// row's alignment; unscrolled, a cursor in a left-aligned row stands at its column's x.
pub proof fn law_horizontal_scroll_shifts_cursors(
    row_layout: RowLayout,
    text_align: TextAlign,
    content_width: Pixels,
    scroll: ScrollPixelOffset,
    other_scroll: ScrollPixelOffset,
)
    ensures
        cursor_origin_x(row_layout, text_align, content_width, other_scroll) == cursor_origin_x(
            row_layout,
            text_align,
            content_width,
            scroll,
        ) - (other_scroll.x - scroll.x),
        cursor_origin_x(
            row_layout,
            TextAlign::Left,
            content_width,
            ScrollPixelOffset { x: 0, y: scroll.y },
        ) == row_layout.column_x.val(),
{
}

/// Each row lies exactly one line height below the one above it, and scrolling down by a
/// whole row moves every cursor up by exactly one line height.
pub proof fn law_rows_are_one_line_apart(row: u32, scroll_position: ScrollOffset, line_height: Pixels)
    requires
        row < u32::MAX,
        scroll_position.y + 65536 <= i64::MAX,
    ensures
        cursor_origin_y(DisplayRow((row + 1) as u32), scroll_position, line_height) == cursor_origin_y(
            DisplayRow(row),
            scroll_position,
            line_height,
        ) + line_height.val(),
        cursor_origin_y(
            DisplayRow(row),
            ScrollOffset { x: scroll_position.x, y: (scroll_position.y + 65536) as i64 },
            line_height,
        ) == cursor_origin_y(DisplayRow(row), scroll_position, line_height) - line_height.val(),
{
    let h = line_height.val();
    let a = (row * 65536 - scroll_position.y) * h;
    let q = a / 65536;
    lemma_fundamental_div_mod(a, 65536);
    let below = ((row + 1) * 65536 - scroll_position.y) * h;
    assert(below == (q + h) * 65536 + a % 65536) by (nonlinear_arith)
        requires
            a == (row * 65536 - scroll_position.y) * h,
            a == 65536 * q + a % 65536,
            below == ((row + 1) * 65536 - scroll_position.y) * h,
    ;
    lemma_fundamental_div_mod_converse(below, 65536, q + h, a % 65536);
    let scrolled = (row * 65536 - (scroll_position.y + 65536)) * h;
    assert(scrolled == (q - h) * 65536 + a % 65536) by (nonlinear_arith)
        requires
            a == (row * 65536 - scroll_position.y) * h,
            a == 65536 * q + a % 65536,
            scrolled == (row * 65536 - (scroll_position.y + 65536)) * h,
    ;
    lemma_fundamental_div_mod_converse(scrolled, 65536, q - h, a % 65536);
}

} // verus!
