# cursor_animation

Cursor animation for a text editor, verified with Verus: a cursor that moves glides
(or leaves a trail) from where it was seen to where it now stands, eased with a cubic
ease-out, and each cursor's animation is kept from frame to frame under a key.

Numbers are exact integers throughout the library:

- screen lengths (`geometry::Pixels`) count 1/65536ths of a logical pixel, in an `i64`;
- animation fractions count 2^-32ths (`geometry::FRACTION_ONE` stands for 1.0), and
  every division rounds down to the step below;
- moments (`timing::Timestamp`) are nanoseconds since a monotonic
  `settings::AnimationClock` was started, durations are milliseconds.

Layout of `src/`:

- `geometry` — lengths, points, rectangles, interpolation, the union of two rectangles
  and the outline a moving cursor sweeps;
- `timing` — how far an animation has got at a moment, and the easing curve;
- `settings` — the user's settings and what one frame shares;
- `animation` — one cursor's animation: its frame at a moment, and how it follows the
  cursor (`CursorAnimationState::update`);
- `trail` — the shape of a trail;
- `viewport` — which cursors are on screen and where a cursor is drawn;
- `registry` — the animations of all cursors across frames;
- `laws` — properties that span these functions, proved.

`app/` holds what needs floating point: conversions from and to floating-point pixels,
and the angle of a trail's gradient.
