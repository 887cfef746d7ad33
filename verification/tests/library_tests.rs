use std::collections::HashMap;

use cursor_animation::animation::{CursorAnimationFrame, CursorAnimationState, DisplayPoint, DisplayRow};
use cursor_animation::geometry::{
    assert_pixels_near, cursor_trail_polygon_between, pixels_near, floor_div, interpolate_pixels,
    interpolate_point, is_diagonal_motion, point, px, size, union_bounds, Bounds, Pixels, Point,
    RectCorners, FRACTION_ONE,
};
use cursor_animation::registry::{
    CursorAnimationKey, CursorAnimationSelection, CursorAnimationStates, ReplicaId,
    LOCAL_NEWEST_SELECTION_ID,
};
use cursor_animation::settings::{
    cursor_animation_test_settings, AnimationClock, CursorAnimationFrameContext,
    CursorAnimationSettings,
};
use cursor_animation::timing::{cursor_animation_delta, ease_cursor_delta, Timestamp};
use cursor_animation::trail::CursorShapeTrail;
use cursor_animation::viewport::{
    cursor_origin_for_display_point, CursorAnimationViewport, RowLayout, ScrollOffset,
    ScrollPixelOffset, TextAlign,
};

fn at_millis(millis: u128) -> Timestamp {
    Timestamp { nanos: 10_000_000_000 + millis * 1_000_000 }
}

fn rect(x: i64, y: i64, width: i64, height: i64) -> Bounds {
    Bounds { origin: point(px(x), px(y)), size: size(px(width), px(height)) }
}

fn key(selection_id: usize) -> CursorAnimationKey {
    CursorAnimationKey { replica_id: ReplicaId(3), selection_id }
}

fn plain_viewport() -> CursorAnimationViewport {
    CursorAnimationViewport {
        row_block_types: HashMap::new(),
        visible_rows_start: DisplayRow(0),
        visible_rows_end: DisplayRow(10),
        show_local_cursors: true,
        text_align: TextAlign::Left,
        content_width: px(500),
        scroll_position: ScrollOffset { x: 0, y: 0 },
        scroll_pixel_position: ScrollPixelOffset { x: 0, y: 0 },
        line_height: px(20),
    }
}

#[test]
fn floor_division_rounds_down() {
    assert_eq!(floor_div(7, 2), 3);
    assert_eq!(floor_div(-7, 2), -4);
    assert_eq!(floor_div(-8, 2), -4);
    assert_eq!(floor_div(-1, 65536), -1);
    assert_eq!(floor_div(-0x1_0000_0001, 0x1_0000_0000), -2);
    assert_eq!(floor_div(0, 3), 0);
}

#[test]
fn interpolation_hits_both_ends_and_rounds_down() {
    let one = FRACTION_ONE as i64;
    assert_eq!(interpolate_pixels(px(10), px(30), 0), px(10));
    assert_eq!(interpolate_pixels(px(10), px(30), one), px(30));
    assert_eq!(interpolate_pixels(px(10), px(30), one / 4), px(15));
    // Half of one step downwards rounds to the step below.
    assert_eq!(interpolate_pixels(Pixels(0), Pixels(-1), one / 2), Pixels(-1));
    assert_eq!(interpolate_pixels(Pixels(0), Pixels(1), one / 2), Pixels(0));
    // Fractions below 0 and past 1 lie beyond the ends.
    assert_eq!(interpolate_pixels(px(10), px(30), 2 * one), px(50));
    assert_eq!(interpolate_pixels(px(10), px(30), -one / 2), px(0));
    // A third of the way across one pixel lands within a thousandth of a pixel of 1/3.
    let third = cursor_animation_delta(at_millis(0), 3, at_millis(1));
    let length = interpolate_pixels(px(0), px(1), third as i64);
    assert!((length.0 as f64 / 65536.0 - 1.0 / 3.0).abs() < 0.001);
    let p = interpolate_point(point(px(0), px(100)), point(px(100), px(0)), one / 2);
    assert_eq!(p, point(px(50), px(50)));
}

#[test]
fn animation_delta_runs_from_zero_to_one() {
    let start = at_millis(0);
    assert_eq!(cursor_animation_delta(start, 100, start), 0);
    assert_eq!(cursor_animation_delta(start, 100, at_millis(25)), FRACTION_ONE / 4);
    assert_eq!(cursor_animation_delta(start, 100, at_millis(100)), FRACTION_ONE);
    assert_eq!(cursor_animation_delta(start, 100, at_millis(5000)), FRACTION_ONE);
    // A moment before the start counts as the start.
    assert_eq!(cursor_animation_delta(at_millis(50), 100, at_millis(10)), 0);
    // A third of the way rounds down.
    assert_eq!(cursor_animation_delta(start, 3, at_millis(1)), 1431655765);
}

#[test]
fn easing_is_ahead_of_linear_and_monotone() {
    let samples = [0u64, 1000, 1 << 30, 1 << 31, 3 << 30, FRACTION_ONE - 7, FRACTION_ONE];
    let mut previous = 0u64;
    for d in samples {
        let e = ease_cursor_delta(d);
        assert!(e >= d);
        assert!(e <= FRACTION_ONE);
        assert!(e >= previous);
        previous = e;
    }
    // 1 - (3/4)^3 = 37/64
    assert_eq!(ease_cursor_delta(FRACTION_ONE / 4), FRACTION_ONE / 64 * 37);
    // Fractions past 1 count as 1.
    assert_eq!(ease_cursor_delta(FRACTION_ONE + 5), FRACTION_ONE);
}

#[test]
fn settled_state_is_still_at_its_origin() {
    let position = DisplayPoint::new(DisplayRow(2), 4);
    let origin = point(px(40), px(60));
    let now = at_millis(0);
    let state = CursorAnimationState::settled(position, origin, now, 100);
    assert_eq!(state.started_at, Timestamp { nanos: now.nanos - 100_000_000 });
    assert!(!state.draw_trail);
    for movement in [true, false] {
        assert_eq!(
            state.frame(now, movement),
            CursorAnimationFrame { origin, trail_origin: None, is_animating: false }
        );
    }
}

#[test]
fn settled_state_starts_now_when_the_clock_is_young() {
    let position = DisplayPoint::new(DisplayRow(0), 0);
    let now = Timestamp { nanos: 5 };
    let state = CursorAnimationState::settled(position, point(px(1), px(1)), now, 100);
    assert_eq!(state.started_at, now);
    assert!(state.frame(now, true).is_animating);
}

#[test]
fn new_cursor_is_drawn_still() {
    let position = DisplayPoint::new(DisplayRow(1), 1);
    let target = point(px(7), px(9));
    let now = at_millis(0);
    let (frame, state) = CursorAnimationState::update(
        None,
        position,
        target,
        now,
        100,
        cursor_animation_test_settings(),
        true,
    );
    assert_eq!(frame, CursorAnimationFrame { origin: target, trail_origin: None, is_animating: false });
    assert_eq!(state, CursorAnimationState::settled(position, target, now, 100));
}

#[test]
fn moving_without_movement_or_trail_jumps() {
    let start = at_millis(0);
    let state = CursorAnimationState::settled(
        DisplayPoint::new(DisplayRow(0), 0),
        point(px(0), px(0)),
        start,
        100,
    );
    let settings = CursorAnimationSettings { movement: false, shape: false, ..cursor_animation_test_settings() };
    let (frame, next) = CursorAnimationState::update(
        Some(state),
        DisplayPoint::new(DisplayRow(0), 5),
        point(px(50), px(0)),
        start,
        100,
        settings,
        false,
    );
    assert_eq!(next.start_origin, point(px(50), px(0)));
    assert_eq!(frame.origin, point(px(50), px(0)));
    assert_eq!(frame.trail_origin, None);
}

#[test]
fn gliding_cursor_moves_along_the_eased_path() {
    let start = at_millis(0);
    let state = CursorAnimationState::settled(
        DisplayPoint::new(DisplayRow(0), 0),
        point(px(0), px(0)),
        start,
        100,
    );
    let (frame, next) = CursorAnimationState::update(
        Some(state),
        DisplayPoint::new(DisplayRow(0), 8),
        point(px(80), px(0)),
        start,
        100,
        cursor_animation_test_settings(),
        false,
    );
    assert!(frame.is_animating);
    assert_eq!(frame.origin, point(px(0), px(0)));
    assert_eq!(frame.trail_origin, None);
    let halfway = next.frame(at_millis(50), true);
    assert_eq!(halfway.origin, point(px(70), px(0)));
    let done = next.frame(at_millis(100), true);
    assert_eq!(done.origin, point(px(80), px(0)));
    assert!(!done.is_animating);
}

#[test]
fn unchanged_cursor_takes_the_new_duration() {
    let start = at_millis(0);
    let position = DisplayPoint::new(DisplayRow(0), 1);
    let state = CursorAnimationState {
        logical_position: position,
        start_origin: point(px(0), px(0)),
        target_origin: point(px(100), px(0)),
        started_at: start,
        duration: 100,
        draw_trail: false,
    };
    let (frame, next) = CursorAnimationState::update(
        Some(state),
        position,
        point(px(100), px(0)),
        at_millis(50),
        200,
        cursor_animation_test_settings(),
        false,
    );
    assert_eq!(next.duration, 200);
    assert_eq!(next.started_at, start);
    assert!(frame.is_animating);
    // A quarter of the way: 1 - (3/4)^3 = 37/64 of 100 px.
    assert_eq!(frame.origin.x, Pixels(px(100).0 / 64 * 37));
}

#[test]
fn finished_animation_settles_at_target() {
    let start = at_millis(0);
    let position = DisplayPoint::new(DisplayRow(0), 1);
    let state = CursorAnimationState {
        logical_position: position,
        start_origin: point(px(0), px(0)),
        target_origin: point(px(100), px(0)),
        started_at: start,
        duration: 100,
        draw_trail: true,
    };
    let now = at_millis(150);
    let (frame, next) = CursorAnimationState::update(
        Some(state),
        position,
        point(px(100), px(0)),
        now,
        100,
        cursor_animation_test_settings(),
        true,
    );
    assert!(!frame.is_animating);
    assert_eq!(frame.origin, point(px(100), px(0)));
    assert_eq!(frame.trail_origin, None);
    assert_eq!(next, CursorAnimationState::settled(position, point(px(100), px(0)), now, 100));
}

#[test]
fn union_takes_outermost_edges() {
    let u = union_bounds(rect(10, 20, 5, 5), rect(0, 30, 2, 10));
    assert_eq!(u.left(), px(0));
    assert_eq!(u.top(), px(20));
    assert_eq!(u.right(), px(15));
    assert_eq!(u.bottom(), px(40));
}

#[test]
fn corners_and_trail_outline_follow_the_direction() {
    let trail = rect(0, 0, 2, 20);
    let target = rect(100, 100, 2, 20);
    let c = RectCorners::from_bounds(trail);
    assert_eq!(c.top_right, point(px(2), px(0)));
    assert_eq!(c.bottom_left, point(px(0), px(20)));
    let t = RectCorners::from_bounds(target);
    let down_right = cursor_trail_polygon_between(trail, target, point(px(0), px(0)), point(px(100), px(100)));
    assert_eq!(
        down_right,
        [c.top_left, c.top_right, t.top_right, t.bottom_right, t.bottom_left, c.bottom_left]
    );
    let up_left = cursor_trail_polygon_between(trail, target, point(px(100), px(100)), point(px(0), px(0)));
    assert_eq!(
        up_left,
        [c.bottom_right, c.bottom_left, t.bottom_left, t.top_left, t.top_right, c.top_right]
    );
    let up_right = cursor_trail_polygon_between(trail, target, point(px(0), px(100)), point(px(100), px(0)));
    assert_eq!(
        up_right,
        [c.bottom_left, c.top_left, t.top_left, t.top_right, t.bottom_right, c.bottom_right]
    );
    let down_left = cursor_trail_polygon_between(trail, target, point(px(100), px(0)), point(px(0), px(100)));
    assert_eq!(
        down_left,
        [c.top_right, c.bottom_right, t.bottom_right, t.bottom_left, t.top_left, c.top_left]
    );
    assert!(is_diagonal_motion(point(px(0), px(0)), point(px(1), px(1))));
    assert!(!is_diagonal_motion(point(px(0), px(0)), point(px(0), px(1))));
}

#[test]
fn trail_bounds_getter_matches_field() {
    let trail = CursorShapeTrail::between(rect(0, 0, 2, 20), rect(50, 0, 2, 20), point(px(0), px(0)), point(px(50), px(0)));
    assert_eq!(trail.bounds(), trail.bounds);
    assert_eq!(trail.bounds(), rect(0, 0, 52, 20));
}


#[test]
fn pixels_near_means_within_a_thousandth() {
    assert!(pixels_near(px(3), px(3)));
    // A thousandth of a pixel is 65.536 steps.
    assert!(pixels_near(Pixels(65), Pixels(0)));
    assert!(!pixels_near(Pixels(66), Pixels(0)));
    assert!(!pixels_near(Pixels(0), Pixels(66)));
    assert_pixels_near(Pixels(65), Pixels(0));
}

#[test]
fn settings_and_frame_context() {
    let settings = cursor_animation_test_settings();
    assert!(settings.enabled && settings.movement && settings.shape);
    assert_eq!(settings.duration_ms, 100);
    assert!(settings.is_active());
    let off = CursorAnimationSettings { enabled: false, ..settings };
    assert!(!off.is_active());
    let nothing = CursorAnimationSettings { movement: false, shape: false, ..settings };
    assert!(!nothing.is_active());

    let context = CursorAnimationFrameContext::at(settings, at_millis(7));
    assert_eq!(context.now, at_millis(7));
    assert_eq!(context.duration, 100);
    assert_eq!(context.settings(), settings);
    assert!(context.is_active());

    let clock = AnimationClock::start();
    let live = CursorAnimationFrameContext::new(off, &clock);
    assert_eq!(live.settings(), off);
    assert_eq!(live.duration, 100);
    assert!(!live.is_active());
    let later = CursorAnimationFrameContext::new(off, &clock);
    assert!(later.now.nanos >= live.now.nanos);
}

#[test]
fn keys_for_selections() {
    let local_newest = CursorAnimationKey::for_selection(ReplicaId::local(), 17, true);
    assert_eq!(local_newest.selection_id, LOCAL_NEWEST_SELECTION_ID);
    assert_eq!(local_newest, CursorAnimationKey::for_selection(ReplicaId::local(), 4, true));
    assert_eq!(CursorAnimationKey::for_selection(ReplicaId::local(), 17, false).selection_id, 17);
    assert_eq!(CursorAnimationKey::for_selection(ReplicaId(2), 17, true).selection_id, 17);
}

#[test]
fn visibility_and_origin_in_the_viewport() {
    let mut viewport = plain_viewport();
    viewport.row_block_types.insert(3, true);
    viewport.row_block_types.insert(4, false);
    assert!(viewport.is_visible(DisplayPoint::new(DisplayRow(0), 0)));
    assert!(!viewport.is_visible(DisplayPoint::new(DisplayRow(3), 0)));
    assert!(viewport.is_visible(DisplayPoint::new(DisplayRow(4), 0)));
    assert!(!viewport.is_visible(DisplayPoint::new(DisplayRow(10), 0)));
    viewport.show_local_cursors = false;
    assert!(!viewport.is_visible(DisplayPoint::new(DisplayRow(0), 0)));

    let layout = RowLayout { width: px(100), column_x: px(30) };
    let position = DisplayPoint::new(DisplayRow(5), 3);
    let left = viewport.origin_for_display_point(position, layout);
    assert_eq!(left, point(px(30), px(100)));
    viewport.text_align = TextAlign::Center;
    viewport.scroll_pixel_position = ScrollPixelOffset { x: 10 * 65536, y: 0 };
    viewport.scroll_position = ScrollOffset { x: 0, y: 32768 };
    // 30 + (500 - 100) / 2 - 10 across; (5 - 0.5) rows of 20 px down.
    assert_eq!(viewport.origin_for_display_point(position, layout), point(px(220), px(90)));
    assert_eq!(
        cursor_origin_for_display_point(
            position,
            layout,
            TextAlign::Right,
            px(500),
            ScrollOffset { x: 0, y: 0 },
            ScrollPixelOffset { x: 0, y: 0 },
            px(20),
        ),
        point(px(430), px(100))
    );
    // An odd spare width rounds down when centred.
    assert_eq!(
        cursor_origin_for_display_point(
            position,
            layout,
            TextAlign::Center,
            Pixels(100 * 65536 + 1),
            ScrollOffset { x: 0, y: 0 },
            ScrollPixelOffset { x: 0, y: 0 },
            px(20),
        ),
        point(px(30), px(100))
    );
}

#[test]
fn registry_keeps_seen_cursors_across_a_frame() {
    let mut states = CursorAnimationStates::new();
    let context = CursorAnimationFrameContext::at(cursor_animation_test_settings(), at_millis(0));
    let position = DisplayPoint::new(DisplayRow(0), 0);

    assert_eq!(states.update_visible(None, position, point(px(5), px(5)), context, true), None);
    let frame = states.update_visible(Some(key(1)), position, point(px(5), px(5)), context, true);
    assert_eq!(frame, Some(CursorAnimationFrame { origin: point(px(5), px(5)), trail_origin: None, is_animating: false }));
    states.update_visible(Some(key(2)), position, point(px(9), px(9)), context, true);
    assert!(states.is_key_active(key(1)));
    assert!(states.is_key_active(key(2)));
    states.finish_frame(context);
    assert!(!states.is_key_active(key(1)));
    assert!(states.state_for(key(1)).is_some());

    // Next frame: only the first cursor is drawn, and it moved.
    let later = CursorAnimationFrameContext::at(cursor_animation_test_settings(), at_millis(16));
    let moved = DisplayPoint::new(DisplayRow(0), 4);
    let frame = states
        .update_visible(Some(key(1)), moved, point(px(45), px(5)), later, false)
        .unwrap();
    assert!(frame.is_animating);
    assert_eq!(frame.origin, point(px(5), px(5)));
    states.finish_frame(later);
    let kept = states.state_for(key(1)).unwrap();
    assert_eq!(kept.logical_position, moved);
    assert_eq!(kept.start_origin, point(px(5), px(5)));
    assert_eq!(kept.target_origin, point(px(45), px(5)));
    assert!(states.state_for(key(2)).is_none());
}

#[test]
fn registry_forgets_everything_when_animation_is_off() {
    let mut states = CursorAnimationStates::default();
    let context = CursorAnimationFrameContext::at(cursor_animation_test_settings(), at_millis(0));
    let position = DisplayPoint::new(DisplayRow(0), 0);
    states.update_visible(Some(key(1)), position, point(px(5), px(5)), context, true);
    let off = CursorAnimationFrameContext::at(
        CursorAnimationSettings { enabled: false, ..cursor_animation_test_settings() },
        at_millis(16),
    );
    states.finish_frame(off);
    assert!(states.state_for(key(1)).is_none());
    assert!(!states.is_key_active(key(1)));
}

#[test]
fn hidden_selections_settle_where_the_layout_puts_them() {
    let mut states = CursorAnimationStates::new();
    let mut viewport = plain_viewport();
    viewport.row_block_types.insert(2, true);
    let context = CursorAnimationFrameContext::at(cursor_animation_test_settings(), at_millis(0));
    let selections = vec![
        CursorAnimationSelection::new(Some(key(1)), DisplayPoint::new(DisplayRow(1), 0)),
        CursorAnimationSelection::new(Some(key(2)), DisplayPoint::new(DisplayRow(2), 0)),
        CursorAnimationSelection::new(Some(key(3)), DisplayPoint::new(DisplayRow(40), 0)),
        CursorAnimationSelection::new(None, DisplayPoint::new(DisplayRow(50), 0)),
    ];
    let layouts = vec![
        RowLayout { width: px(10), column_x: px(1) },
        RowLayout { width: px(10), column_x: px(2) },
        RowLayout { width: px(10), column_x: px(3) },
        RowLayout { width: px(10), column_x: px(4) },
    ];
    states.sync_hidden_selections(&selections, &viewport, &layouts, context);
    assert!(states.state_for(key(1)).is_none());
    assert!(!states.is_key_active(key(1)));
    let block = states.state_for(key(2)).unwrap();
    assert_eq!(block, CursorAnimationState::settled(selections[1].position, point(px(2), px(40)), context.now, 100));
    let below = states.state_for(key(3)).unwrap();
    assert_eq!(below.target_origin, point(px(3), px(800)));
    assert!(states.is_key_active(key(2)));
    assert!(states.is_key_active(key(3)));

    // With animation off nothing changes.
    let mut idle = CursorAnimationStates::new();
    let off = CursorAnimationFrameContext::at(
        CursorAnimationSettings { enabled: false, ..cursor_animation_test_settings() },
        at_millis(0),
    );
    idle.sync_hidden_selections(&selections, &viewport, &layouts, off);
    assert!(idle.state_for(key(2)).is_none());
}

#[test]
fn timestamps_subtract_and_saturate() {
    let t = Timestamp { nanos: 3_000_000 };
    assert_eq!(t.checked_sub_millis(2), Some(Timestamp { nanos: 1_000_000 }));
    assert_eq!(t.checked_sub_millis(4), None);
    assert_eq!(t.saturating_nanos_since(Timestamp { nanos: 1 }), 2_999_999);
    assert_eq!(t.saturating_nanos_since(Timestamp { nanos: 9_000_000 }), 0);
}

#[test]
fn display_point_accessors() {
    let p = DisplayPoint::new(DisplayRow(7), 9);
    assert_eq!(p.row(), DisplayRow(7));
    assert_eq!(p.column(), 9);
    let selection = CursorAnimationSelection::new(None, p);
    assert_eq!(selection.position, p);
    let _unused: Point = point(px(0), px(0));
}

#[test]
fn try_between_refuses_what_cannot_be_stored() {
    let trail = rect(0, 0, 2, 20);
    let target = rect(50, 30, 2, 20);
    let made = CursorShapeTrail::try_between(trail, target, point(px(0), px(0)), point(px(50), px(30)));
    assert_eq!(
        made,
        Some(CursorShapeTrail::between(trail, target, point(px(0), px(0)), point(px(50), px(30))))
    );
    let far = Bounds { origin: point(Pixels(i64::MAX - 5), px(0)), size: size(px(2), px(20)) };
    assert_eq!(CursorShapeTrail::try_between(far, target, point(px(0), px(0)), point(px(50), px(30))), None);
    let low = Bounds { origin: point(Pixels(i64::MIN + 5), px(0)), size: size(px(0), px(20)) };
    let high = Bounds { origin: point(Pixels(i64::MAX - 5), px(0)), size: size(px(0), px(20)) };
    assert_eq!(CursorShapeTrail::try_between(low, high, point(px(0), px(0)), point(px(0), px(0))), None);
}

#[test]
fn placed_trail_moves_by_the_origin() {
    let trail = CursorShapeTrail::between(rect(0, 0, 2, 20), rect(50, 30, 2, 20), point(px(0), px(0)), point(px(50), px(30)));
    let offset = point(px(7), px(-3));
    let (bounds, polygon) = trail.placed_at(offset);
    assert_eq!(bounds, Bounds { origin: point(px(7), px(-3)), size: trail.bounds.size });
    let original = trail.polygon.unwrap();
    let moved = polygon.unwrap();
    for i in 0..6 {
        assert_eq!(moved[i], point(Pixels(original[i].x.0 + px(7).0), Pixels(original[i].y.0 - px(3).0)));
    }
    let straight = CursorShapeTrail::between(rect(0, 0, 2, 20), rect(50, 0, 2, 20), point(px(0), px(0)), point(px(50), px(0)));
    assert_eq!(straight.placed_at(offset).1, None);
}

#[test]
fn checked_origins_and_hidden_sync() {
    let viewport = plain_viewport();
    let layout = RowLayout { width: px(100), column_x: px(30) };
    let position = DisplayPoint::new(DisplayRow(5), 3);
    assert!(viewport.origin_fits_check(position, layout));
    assert_eq!(viewport.try_origin_for_display_point(position, layout), Some(point(px(30), px(100))));
    let huge = RowLayout { width: px(0), column_x: Pixels(i64::MAX) };
    let mut shifted = plain_viewport();
    shifted.scroll_pixel_position = ScrollPixelOffset { x: -1, y: 0 };
    assert!(!shifted.origin_fits_check(position, huge));
    assert_eq!(shifted.try_origin_for_display_point(position, huge), None);

    let context = CursorAnimationFrameContext::at(cursor_animation_test_settings(), at_millis(0));
    let selections = vec![CursorAnimationSelection::new(Some(key(1)), DisplayPoint::new(DisplayRow(40), 0))];
    let mut states = CursorAnimationStates::new();
    // One layout too few.
    assert!(!states.try_sync_hidden_selections(&selections, &viewport, &vec![], context));
    assert!(states.state_for(key(1)).is_none());
    // A place beyond what can be stored.
    assert!(!states.try_sync_hidden_selections(&selections, &shifted, &vec![huge], context));
    assert!(states.state_for(key(1)).is_none());
    assert!(states.try_sync_hidden_selections(&selections, &viewport, &vec![layout], context));
    assert_eq!(states.state_for(key(1)).unwrap().target_origin, point(px(30), px(800)));
    // With animation off, nothing is read and nothing changes.
    let off = CursorAnimationFrameContext::at(
        CursorAnimationSettings { enabled: false, ..cursor_animation_test_settings() },
        at_millis(0),
    );
    let mut idle = CursorAnimationStates::new();
    assert!(idle.try_sync_hidden_selections(&selections, &viewport, &vec![], off));
    assert!(idle.state_for(key(1)).is_none());
}

#[test]
fn neighbouring_keys_keep_separate_animations() {
    let newest_local = CursorAnimationKey { replica_id: ReplicaId(0), selection_id: usize::MAX };
    let first_remote = CursorAnimationKey { replica_id: ReplicaId(1), selection_id: 0 };
    let mut states = CursorAnimationStates::new();
    let context = CursorAnimationFrameContext::at(cursor_animation_test_settings(), at_millis(0));
    let position = DisplayPoint::new(DisplayRow(0), 0);
    states.update_visible(Some(newest_local), position, point(px(1), px(1)), context, false);
    states.update_visible(Some(first_remote), position, point(px(2), px(2)), context, false);
    assert_eq!(states.state_for(newest_local).unwrap().target_origin, point(px(1), px(1)));
    assert_eq!(states.state_for(first_remote).unwrap().target_origin, point(px(2), px(2)));
    states.finish_frame(context);
    assert!(states.state_for(newest_local).is_some());
    assert!(states.state_for(first_remote).is_some());
}
