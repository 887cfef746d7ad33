use vstd::prelude::*;
use crate::geometry::{Point, FRACTION_ONE, lerp_point, interpolate_point, lemma_lerp_between};
use crate::settings::CursorAnimationSettings;
use crate::timing::{
    Timestamp, animation_delta, eased, millis_as_nanos, cursor_animation_delta, ease_cursor_delta,
};

verus! {

/// A row of the displayed text.
#[derive(Clone, Copy, Debug, PartialEq, Eq, Structural)]
pub struct DisplayRow(pub u32);

/// A place in the displayed text: a row and a column in it.
#[derive(Clone, Copy, Debug, PartialEq, Eq, Structural)]
pub struct DisplayPoint {
    pub row: DisplayRow,
    pub column: u32,
}

impl DisplayPoint {
    /// The place at `column` in `row`.
    pub fn new(row: DisplayRow, column: u32) -> (p: Self)
        ensures
            p == (Self { row, column }),
    {
        Self { row, column }
    }

    /// The row.
    pub fn row(&self) -> (r: DisplayRow)
        ensures
            r == self.row,
    {
        self.row
    }

    /// The column.
    pub fn column(&self) -> (c: u32)
        ensures
            c == self.column,
    {
        self.column
    }
}

/// One cursor's animation: where the cursor stands in the text, the screen points it
/// moves between, when the motion began and how long it lasts, and whether it is drawn
/// as a trail behind a cursor already at its target.
#[derive(Clone, Copy, Debug, PartialEq, Eq, Structural)]
pub struct CursorAnimationState {
    pub logical_position: DisplayPoint,
    pub start_origin: Point,
    pub target_origin: Point,
    pub started_at: Timestamp,
    /// In milliseconds.
    pub duration: u64,
    pub draw_trail: bool,
}

/// Where to draw a cursor in one frame, and the far end of its trail if it leaves one.
#[derive(Clone, Copy, Debug, PartialEq, Eq, Structural)]
pub struct CursorAnimationFrame {
    pub origin: Point,
    pub trail_origin: Option<Point>,
    pub is_animating: bool,
}

/// An animation at rest at `origin` since `started_at`.
pub open spec fn resting_state(
    logical_position: DisplayPoint,
    origin: Point,
    started_at: Timestamp,
    duration: u64,
) -> CursorAnimationState {
    CursorAnimationState {
        logical_position,
        start_origin: origin,
        target_origin: origin,
        started_at,
        duration,
        draw_trail: false,
    }
}

/// An animation at rest at `origin` that counts as finished at `now`: it started a whole
/// duration earlier, or at `now` itself where the clock does not reach back that far.
pub open spec fn settled_state(
    logical_position: DisplayPoint,
    origin: Point,
    now: Timestamp,
    duration: u64,
) -> CursorAnimationState {
    let started_at = if now.nanos >= millis_as_nanos(duration) {
        Timestamp { nanos: (now.nanos - millis_as_nanos(duration)) as u128 }
    } else {
        now
    };
    resting_state(logical_position, origin, started_at, duration)
}

/// The frame of a cursor standing still at `origin`.
pub open spec fn still_frame(origin: Point) -> CursorAnimationFrame {
    CursorAnimationFrame { origin, trail_origin: None, is_animating: false }
}

/// The frame that `state` gives at `now`: the moving point lies the eased fraction of the
/// way from the start to the target. A trail ends at the moving point while the cursor
/// is drawn at its target; otherwise the cursor is drawn at the moving point if movement
/// is enabled, at its target if not. The animation runs until the fraction reaches 1.
pub open spec fn frame_at(
    state: CursorAnimationState,
    now: Timestamp,
    movement_enabled: bool,
) -> CursorAnimationFrame {
    let delta = animation_delta(state.started_at, state.duration, now);
    let moving = lerp_point(state.start_origin, state.target_origin, eased(delta));
    CursorAnimationFrame {
        origin: if movement_enabled && !state.draw_trail {
            moving
        } else {
            state.target_origin
        },
        trail_origin: if state.draw_trail {
            Some(moving)
        } else {
            None
        },
        is_animating: delta < FRACTION_ONE,
    }
}

/// The animation that a known cursor takes up when it is seen at `logical_position`,
/// drawn at `target_origin`, at `now`:
/// - moved in the text: a new motion from where the cursor is seen now (the end of its
///   trail if it draws one; its drawn place if movement or trails are on; else the
///   target), starting now, with a trail if trails are on;
/// - same place in the text but drawn elsewhere (the layout moved): settled at the target;
/// - otherwise unchanged but for the duration, which follows the settings.
pub open spec fn retargeted_state(
    state: CursorAnimationState,
    logical_position: DisplayPoint,
    target_origin: Point,
    now: Timestamp,
    duration: u64,
    settings: CursorAnimationSettings,
    trail_enabled: bool,
) -> CursorAnimationState {
    if state.logical_position != logical_position {
        let current = frame_at(state, now, settings.movement);
        let start_origin = if state.draw_trail {
            match current.trail_origin {
                Some(trail) => trail,
                None => current.origin,
            }
        } else if settings.movement || trail_enabled {
            current.origin
        } else {
            target_origin
        };
        CursorAnimationState {
            logical_position,
            start_origin,
            target_origin,
            started_at: now,
            duration,
            draw_trail: trail_enabled,
        }
    } else if state.target_origin != target_origin {
        settled_state(logical_position, target_origin, now, duration)
    } else {
        CursorAnimationState { duration, ..state }
    }
}

/// The frame a cursor is drawn with at `now`, and the animation it keeps: a cursor not
/// seen before settles at its target; a known one takes up its retargeted animation,
/// and settles at its target once that animation has run its course.
pub open spec fn updated(
    state: Option<CursorAnimationState>,
    logical_position: DisplayPoint,
    target_origin: Point,
    now: Timestamp,
    duration: u64,
    settings: CursorAnimationSettings,
    trail_enabled: bool,
) -> (CursorAnimationFrame, CursorAnimationState) {
    let settled = settled_state(logical_position, target_origin, now, duration);
    match state {
        None => (still_frame(target_origin), settled),
        Some(state) => {
            let next = retargeted_state(
                state,
                logical_position,
                target_origin,
                now,
                duration,
                settings,
                trail_enabled,
            );
            let frame = frame_at(next, now, settings.movement);
            if frame.is_animating {
                (frame, next)
            } else {
                (still_frame(target_origin), settled)
            }
        },
    }
}

impl CursorAnimationState {
    /// An animation at rest at `origin` since `started_at`.
    pub fn new(
        logical_position: DisplayPoint,
        origin: Point,
        started_at: Timestamp,
        duration: u64,
    ) -> (state: Self)
        ensures
            state == resting_state(logical_position, origin, started_at, duration),
    {
        Self {
            logical_position,
            start_origin: origin,
            target_origin: origin,
            started_at,
            duration,
            draw_trail: false,
        }
    }

    /// An animation at rest at `origin` that counts as finished at `now`.
    pub fn settled(logical_position: DisplayPoint, origin: Point, now: Timestamp, duration: u64) -> (state:
        Self)
        ensures
            state == settled_state(logical_position, origin, now, duration),
    {
        let started_at = match now.checked_sub_millis(duration) {
            Some(earlier) => earlier,
            None => now,
        };
        Self::new(logical_position, origin, started_at, duration)
    }

    /// The frame this animation gives at `now`.
    pub fn frame(&self, now: Timestamp, movement_enabled: bool) -> (frame: CursorAnimationFrame)
        ensures
            frame == frame_at(*self, now, movement_enabled),
    {
        let animation_delta = cursor_animation_delta(self.started_at, self.duration, now);
        let eased_delta = ease_cursor_delta(animation_delta);
        proof {
            lemma_lerp_between(
                self.start_origin.x.val(),
                self.target_origin.x.val(),
                eased_delta as int,
            );
            lemma_lerp_between(
                self.start_origin.y.val(),
                self.target_origin.y.val(),
                eased_delta as int,
            );
        }
        let moving = interpolate_point(self.start_origin, self.target_origin, eased_delta as i64);
        let trail_origin = if self.draw_trail {
            Some(moving)
        } else {
            None
        };
        CursorAnimationFrame {
            origin: if movement_enabled && !self.draw_trail {
                moving
            } else {
                self.target_origin
            },
            trail_origin,
            is_animating: animation_delta < FRACTION_ONE,
        }
    }

    /// The frame a cursor seen at `logical_position`, drawn at `target_origin`, gets at
    /// `now`, and the animation it keeps for the next frame.
    pub fn update(
        state: Option<Self>,
        logical_position: DisplayPoint,
        target_origin: Point,
        now: Timestamp,
        duration: u64,
        settings: CursorAnimationSettings,
        trail_enabled: bool,
    ) -> (result: (CursorAnimationFrame, Self))
        ensures
            result == updated(
                state,
                logical_position,
                target_origin,
                now,
                duration,
                settings,
                trail_enabled,
            ),
    {
        let mut state = match state {
            Some(state) => state,
            None => {
                return (
                    CursorAnimationFrame {
                        origin: target_origin,
                        trail_origin: None,
                        is_animating: false,
                    },
                    Self::settled(logical_position, target_origin, now, duration),
                );
            },
        };
        if state.logical_position != logical_position {
            let current = state.frame(now, settings.movement);
            let start_origin = if state.draw_trail {
                match current.trail_origin {
                    Some(trail) => trail,
                    None => current.origin,
                }
            } else if settings.movement || trail_enabled {
                current.origin
            } else {
                target_origin
            };
            state = Self {
                logical_position,
                start_origin,
                target_origin,
                started_at: now,
                duration,
                draw_trail: trail_enabled,
            };
        } else if state.target_origin != target_origin {
            state = Self::settled(logical_position, target_origin, now, duration);
        } else if state.duration != duration {
            state.duration = duration;
        }
        let frame = state.frame(now, settings.movement);
        if frame.is_animating {
            (frame, state)
        } else {
            (
                CursorAnimationFrame { origin: target_origin, trail_origin: None, is_animating: false },
                Self::settled(logical_position, target_origin, now, duration),
            )
        }
    }
}

} // verus!
