use vstd::prelude::*;
use crate::timing::Timestamp;

verus! {

/// What the user chose for cursor animation.
#[derive(Clone, Copy, Debug, PartialEq, Eq, Structural)]
pub struct CursorAnimationSettings {
    /// Cursor animation as a whole is switched on.
    pub enabled: bool,
    /// A cursor glides to its new place instead of jumping there.
    pub movement: bool,
    /// A cursor that moves leaves a trail in its own shape.
    pub shape: bool,
    /// How long one animation lasts, in milliseconds.
    pub duration_ms: u64,
}

impl CursorAnimationSettings {
    /// Animation is switched on and at least one of its effects is. This is the library's
    /// own definition of when the settings put animation in effect.
    pub open spec fn active(self) -> bool {
        self.enabled && (self.movement || self.shape)
    }

    /// Whether animation is switched on and at least one of its effects is.
    pub fn is_active(&self) -> (active: bool)
        ensures
            active == self.active(),
    {
        self.enabled && (self.movement || self.shape)
    }
}

/// Every effect on, with animations of 100 ms.
pub fn cursor_animation_test_settings() -> (settings: CursorAnimationSettings)
    ensures
        settings == (CursorAnimationSettings {
            enabled: true,
            movement: true,
            shape: true,
            duration_ms: 100,
        }),
{
    CursorAnimationSettings { enabled: true, movement: true, shape: true, duration_ms: 100 }
}

/// What one frame's animation work shares: the settings, the moment the frame is drawn
/// at, and how long an animation started in it lasts.
#[derive(Clone, Copy, Debug, PartialEq, Eq, Structural)]
pub struct CursorAnimationFrameContext {
    pub settings: CursorAnimationSettings,
    pub now: Timestamp,
    /// In milliseconds.
    pub duration: u64,
}

#[verifier::external_type_specification]
#[verifier::external_body]
pub struct ExInstant(std::time::Instant);

/// std's `Instant::now`: a reading of the monotonic clock. Nothing is promised of it: it is
/// whatever the clock reads.
#[verifier::external_body]
fn instant_now() -> std::time::Instant {
    std::time::Instant::now()
}

/// std's `Instant::elapsed`, in whole nanoseconds: how long ago, on the monotonic clock,
/// `since` was read. Nothing is promised of the value: it depends on when it is asked.
#[verifier::external_body]
fn nanos_elapsed(since: &std::time::Instant) -> u128 {
    since.elapsed().as_nanos()
}

/// The monotonic clock that frames are timed on: a moment is the nanoseconds since the
/// clock was started.
pub struct AnimationClock {
    started: std::time::Instant,
}

impl AnimationClock {
    /// A clock that starts counting now.
    pub fn start() -> (clock: Self) {
        AnimationClock { started: instant_now() }
    }

    /// The moment it is now on this clock.
    pub fn now(&self) -> (now: Timestamp) {
        Timestamp { nanos: nanos_elapsed(&self.started) }
    }
}

impl CursorAnimationFrameContext {
    /// The context of a frame drawn now, as `clock` tells the time.
    pub fn new(settings: CursorAnimationSettings, clock: &AnimationClock) -> (context: Self)
        ensures
            context.settings == settings,
            context.duration == settings.duration_ms,
    {
        Self::at(settings, clock.now())
    }

    /// The context of a frame drawn at `now`.
    pub fn at(settings: CursorAnimationSettings, now: Timestamp) -> (context: Self)
        ensures
            context == (Self { settings, now, duration: settings.duration_ms }),
    {
        Self { settings, now, duration: settings.duration_ms }
    }

    /// The settings the frame is drawn with.
    pub fn settings(&self) -> (settings: CursorAnimationSettings)
        ensures
            settings == self.settings,
    {
        self.settings
    }

    /// Whether cursor animation is in effect for the frame.
    pub fn is_active(&self) -> (active: bool)
        ensures
            active == self.settings.active(),
    {
        self.settings.is_active()
    }
}

} // verus!
