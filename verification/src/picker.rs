//! The colour picker's decision logic, shared by every platform overlay: what a click,
//! a key or a wheel notch does to the picker state.
//!
//! The platform layer owns the window, the capture and the event loop; it hands each
//! event to a transition here and performs what the transition asks for (redraw,
//! moving the pointer, closing the overlay).

use vstd::prelude::*;
use crate::color::{ColorPickerResult, Rgb};
use crate::capture::{BgraCapture, Screen, clamp};

verus! {

/// Fewest screen pixels shown in the magnifier (always odd).
pub const CAPTURED_PIXELS_MIN: u32 = 9;

/// Most screen pixels shown in the magnifier (always odd).
pub const CAPTURED_PIXELS_MAX: u32 = 21;

/// Step between two captured-pixel counts (2, so that the count stays odd).
pub const CAPTURED_PIXELS_STEP: u32 = 2;

/// Zoom settings of the magnifier: bounds and the increment of one key press or wheel notch.
#[derive(Clone, Copy, Debug)]
pub struct ZoomLimits {
    /// Smallest zoom factor.
    pub min: u32,
    /// Largest zoom factor.
    pub max: u32,
    /// Increment of one step.
    pub step: u32,
}

impl ZoomLimits {
    /// The bounds are ordered.
    pub open spec fn wf(self) -> bool {
        self.min <= self.max
    }
}

/// A captured-pixel count the magnifier accepts: odd, between 9 and 21.
pub open spec fn valid_captured(n: u32) -> bool {
    CAPTURED_PIXELS_MIN <= n <= CAPTURED_PIXELS_MAX && n % 2 == 1
}

/// Keys the picker reacts to, whatever the platform's key codes.
#[derive(Clone, Copy, Debug, PartialEq, Eq, Structural)]
pub enum PickerKey {
    /// Escape.
    Escape,
    /// Return, keypad Enter or Space.
    Enter,
    /// `C`: toggles continue mode.
    ToggleContinue,
    /// `I`: zoom in (with Shift: more pixels).
    ZoomIn,
    /// `O`: zoom out (with Shift: fewer pixels).
    ZoomOut,
    /// Left arrow.
    Left,
    /// Right arrow.
    Right,
    /// Up arrow.
    Up,
    /// Down arrow.
    Down,
    /// Any other key.
    Other,
}

/// State of one picker session.
#[derive(Clone, Copy, Debug)]
pub struct PickerState {
    /// Cursor X position (screen pixels).
    pub cursor_x: i32,
    /// Cursor Y position (screen pixels, downwards).
    pub cursor_y: i32,
    /// Colour under the cursor.
    pub color: Rgb,
    /// Foreground colour picked so far.
    pub fg_color: Option<Rgb>,
    /// Background colour picked so far.
    pub bg_color: Option<Rgb>,
    /// `true` while picking the foreground (top arc), `false` for the background.
    pub fg_mode: bool,
    /// Continue mode: one session picks both colours.
    pub continue_mode: bool,
    /// Current zoom factor, in the unit the overlay chose for its [`ZoomLimits`] (whole
    /// factors, or hundredths where scrolling changes it by fractions).
    pub zoom: u32,
    /// Number of screen pixels across the magnifier.
    pub captured: u32,
    /// The session is over.
    pub quit: bool,
    /// Mouse button whose release must be awaited before the overlay lets go of the pointer.
    pub pending_release: Option<u8>,
}

/// What the platform layer must do after a key press.
#[derive(Clone, Copy, Debug)]
pub struct KeyOutcome {
    /// The magnifier must be redrawn.
    pub redraw: bool,
    /// The system pointer must be moved to this position.
    pub warp_to: Option<(i32, i32)>,
}

impl PickerState {
    /// Zoom and captured-pixel count are within their bounds.
    pub open spec fn wf(self, limits: ZoomLimits) -> bool {
        &&& limits.min <= self.zoom <= limits.max
        &&& valid_captured(self.captured)
    }

    /// Fresh state of a session that starts in foreground (`fg`) or background mode.
    pub open spec fn spec_new(fg: bool, zoom: u32, captured: u32) -> PickerState {
        PickerState {
            cursor_x: 0,
            cursor_y: 0,
            color: (0, 0, 0),
            fg_color: None,
            bg_color: None,
            fg_mode: fg,
            continue_mode: false,
            zoom,
            captured,
            quit: false,
            pending_release: None,
        }
    }

    /// The current colour stored in the slot of the current mode.
    pub open spec fn store_current(self) -> PickerState {
        if self.fg_mode {
            PickerState { fg_color: Some(self.color), ..self }
        } else {
            PickerState { bg_color: Some(self.color), ..self }
        }
    }

    /// Whether the colour of the other mode has already been picked.
    pub open spec fn has_other(self) -> bool {
        if self.fg_mode {
            self.bg_color is Some
        } else {
            self.fg_color is Some
        }
    }

    /// Selecting the colour under the cursor (left click, Enter or Space).
    ///
    /// In normal mode the colour goes into the current slot and the session ends. In
    /// continue mode the first pick switches to the other slot; the pick that completes
    /// both slots ends the session.
    pub open spec fn after_select(self) -> PickerState {
        let stored = self.store_current();
        if self.continue_mode && !self.has_other() {
            PickerState { fg_mode: !self.fg_mode, ..stored }
        } else {
            PickerState { quit: true, ..stored }
        }
    }

    /// Cancelling: both colours are dropped and the session ends.
    pub open spec fn after_cancel(self) -> PickerState {
        PickerState { fg_color: None, bg_color: None, quit: true, ..self }
    }

    /// Leaving without a new pick: the session ends, colours picked so far stay.
    pub open spec fn after_abort(self) -> PickerState {
        PickerState { quit: true, ..self }
    }

    /// Confirming: the current colour goes into the current slot and the session ends,
    /// whatever continue mode says.
    pub open spec fn after_confirm(self) -> PickerState {
        PickerState { quit: true, ..self.store_current() }
    }

    /// Continue mode switched.
    pub open spec fn after_toggle_continue(self) -> PickerState {
        PickerState { continue_mode: !self.continue_mode, ..self }
    }

    /// Zoom raised by one step, capped at the maximum.
    pub open spec fn after_zoom_in(self, limits: ZoomLimits) -> PickerState {
        PickerState { zoom: min_u32(self.zoom + limits.step, limits.max as int), ..self }
    }

    /// Zoom lowered by one step, floored at the minimum.
    pub open spec fn after_zoom_out(self, limits: ZoomLimits) -> PickerState {
        PickerState { zoom: max_u32(self.zoom - limits.step, limits.min as int), ..self }
    }

    /// Captured-pixel count raised by one step, capped at the maximum.
    pub open spec fn after_more_pixels(self) -> PickerState {
        PickerState {
            captured: min_u32(self.captured + CAPTURED_PIXELS_STEP, CAPTURED_PIXELS_MAX as int),
            ..self
        }
    }

    /// Captured-pixel count lowered by one step, floored at the minimum.
    pub open spec fn after_fewer_pixels(self) -> PickerState {
        PickerState {
            captured: max_u32(self.captured - CAPTURED_PIXELS_STEP, CAPTURED_PIXELS_MIN as int),
            ..self
        }
    }

    /// One wheel notch: with Shift it changes the captured-pixel count, otherwise the zoom.
    pub open spec fn after_wheel(self, shift: bool, up: bool, limits: ZoomLimits) -> PickerState {
        if shift {
            if up {
                self.after_more_pixels()
            } else {
                self.after_fewer_pixels()
            }
        } else {
            if up {
                self.after_zoom_in(limits)
            } else {
                self.after_zoom_out(limits)
            }
        }
    }

    /// Zoom moved by `delta` (a signed amount of zoom units, as a smooth scroll gives),
    /// clamped between the bounds.
    pub open spec fn after_scroll_zoom(self, delta: int, limits: ZoomLimits) -> PickerState {
        PickerState { zoom: clamp(self.zoom + delta, limits.min as int, limits.max as int) as u32, ..self }
    }

    /// The colours picked, as handed back to the caller.
    pub open spec fn spec_result(self) -> ColorPickerResult {
        ColorPickerResult {
            foreground: self.fg_color,
            background: self.bg_color,
            continue_mode: self.continue_mode,
        }
    }

    /// Fresh state of a session that starts in foreground (`fg`) or background mode, with
    /// the given zoom and captured-pixel count, no colour picked and continue mode off.
    pub fn new(fg: bool, zoom: u32, captured: u32) -> (s: PickerState)
        ensures
            s == Self::spec_new(fg, zoom, captured),
    {
        PickerState {
            cursor_x: 0,
            cursor_y: 0,
            color: (0, 0, 0),
            fg_color: None,
            bg_color: None,
            fg_mode: fg,
            continue_mode: false,
            zoom,
            captured,
            quit: false,
            pending_release: None,
        }
    }

    /// Resets the session: no colour, foreground mode, continue mode off, default zoom and
    /// captured-pixel count, cursor at the origin.
    pub fn reset(&mut self, zoom: u32, captured: u32)
        ensures
            *final(self) == (PickerState {
                pending_release: old(self).pending_release,
                ..Self::spec_new(true, zoom, captured)
            }),
    {
        self.cursor_x = 0;
        self.cursor_y = 0;
        self.color = (0, 0, 0);
        self.fg_color = None;
        self.bg_color = None;
        self.fg_mode = true;
        self.continue_mode = false;
        self.zoom = zoom;
        self.captured = captured;
        self.quit = false;
    }

    /// Selects the colour under the cursor (left click, Enter or Space); see
    /// [`PickerState::after_select`].
    pub fn select_color(&mut self)
        ensures
            *final(self) == old(self).after_select(),
    {
        let color = self.color;
        if self.continue_mode {
            let has_other = if self.fg_mode {
                self.bg_color.is_some()
            } else {
                self.fg_color.is_some()
            };
            if self.fg_mode {
                self.fg_color = Some(color);
            } else {
                self.bg_color = Some(color);
            }
            if has_other {
                self.quit = true;
            } else {
                self.fg_mode = !self.fg_mode;
            }
        } else {
            if self.fg_mode {
                self.fg_color = Some(color);
            } else {
                self.bg_color = Some(color);
            }
            self.quit = true;
        }
    }

    /// Cancels the session: no colour is returned (Escape or right click on X11, Escape on
    /// macOS).
    pub fn cancel(&mut self)
        ensures
            *final(self) == old(self).after_cancel(),
    {
        self.fg_color = None;
        self.bg_color = None;
        self.quit = true;
    }

    /// Ends the session keeping the colours picked so far (Escape and right click on
    /// Windows).
    pub fn abort(&mut self)
        ensures
            *final(self) == old(self).after_abort(),
    {
        self.quit = true;
    }

    /// Stores the colour under the cursor in the current slot and ends the session
    /// (Return on macOS).
    pub fn confirm(&mut self)
        ensures
            *final(self) == old(self).after_confirm(),
    {
        let color = self.color;
        if self.fg_mode {
            self.fg_color = Some(color);
        } else {
            self.bg_color = Some(color);
        }
        self.quit = true;
    }

    /// Switches continue mode.
    pub fn toggle_continue(&mut self)
        ensures
            *final(self) == old(self).after_toggle_continue(),
    {
        self.continue_mode = !self.continue_mode;
    }

    /// Zooms in by one step, capped at the maximum zoom.
    pub fn zoom_in(&mut self, limits: ZoomLimits)
        requires
            old(self).wf(limits),
        ensures
            *final(self) == old(self).after_zoom_in(limits),
            final(self).wf(limits),
    {
        if self.zoom >= limits.max || limits.max - self.zoom <= limits.step {
            self.zoom = limits.max;
        } else {
            self.zoom = self.zoom + limits.step;
        }
    }

    /// Zooms out by one step, floored at the minimum zoom.
    pub fn zoom_out(&mut self, limits: ZoomLimits)
        requires
            old(self).wf(limits),
        ensures
            *final(self) == old(self).after_zoom_out(limits),
            final(self).wf(limits),
    {
        if self.zoom <= limits.min || self.zoom - limits.min <= limits.step {
            self.zoom = limits.min;
        } else {
            self.zoom = self.zoom - limits.step;
        }
    }

    /// Shows two more screen pixels across the magnifier, at most 21.
    pub fn more_pixels(&mut self)
        requires
            valid_captured(old(self).captured),
        ensures
            *final(self) == old(self).after_more_pixels(),
            valid_captured(final(self).captured),
    {
        if self.captured + CAPTURED_PIXELS_STEP >= CAPTURED_PIXELS_MAX {
            self.captured = CAPTURED_PIXELS_MAX;
        } else {
            self.captured = self.captured + CAPTURED_PIXELS_STEP;
        }
    }

    /// Shows two fewer screen pixels across the magnifier, at least 9.
    pub fn fewer_pixels(&mut self)
        requires
            valid_captured(old(self).captured),
        ensures
            *final(self) == old(self).after_fewer_pixels(),
            valid_captured(final(self).captured),
    {
        if self.captured <= CAPTURED_PIXELS_MIN + CAPTURED_PIXELS_STEP {
            self.captured = CAPTURED_PIXELS_MIN;
        } else {
            self.captured = self.captured - CAPTURED_PIXELS_STEP;
        }
    }

    /// One wheel notch, up or down: with Shift the captured-pixel count changes, otherwise
    /// the zoom.
    pub fn wheel(&mut self, shift: bool, up: bool, limits: ZoomLimits)
        requires
            old(self).wf(limits),
        ensures
            *final(self) == old(self).after_wheel(shift, up, limits),
            final(self).wf(limits),
    {
        if shift {
            if up {
                self.more_pixels();
            } else {
                self.fewer_pixels();
            }
        } else {
            if up {
                self.zoom_in(limits);
            } else {
                self.zoom_out(limits);
            }
        }
    }

    /// Moves the zoom by `delta` units, clamped between the bounds (a smooth scroll on
    /// macOS); see [`PickerState::after_scroll_zoom`].
    pub fn scroll_zoom(&mut self, delta: i64, limits: ZoomLimits)
        requires
            old(self).wf(limits),
        ensures
            *final(self) == old(self).after_scroll_zoom(delta as int, limits),
            final(self).wf(limits),
    {
        let z = self.zoom as i64;
        let target: i64 = if delta > 0 {
            if delta > limits.max as i64 - z { limits.max as i64 } else { z + delta }
        } else {
            if delta < limits.min as i64 - z { limits.min as i64 } else { z + delta }
        };
        self.zoom = if target < limits.min as i64 {
            limits.min
        } else if target > limits.max as i64 {
            limits.max
        } else {
            target as u32
        };
    }

    /// The colours picked in this session.
    pub fn result(&self) -> (r: ColorPickerResult)
        ensures
            r == self.spec_result(),
    {
        ColorPickerResult {
            foreground: self.fg_color,
            background: self.bg_color,
            continue_mode: self.continue_mode,
        }
    }
}

/// The smaller of a value and a bound, as a `u32`.
pub open spec fn min_u32(a: int, b: int) -> u32 {
    (if a < b { a } else { b }) as u32
}

/// The larger of a value and a bound, as a `u32`.
pub open spec fn max_u32(a: int, b: int) -> u32 {
    (if a > b { a } else { b }) as u32
}

/// Cursor offset of one arrow key: one pixel, or `shift_move` pixels with Shift, with Y
/// growing downwards. Other keys do not move.
pub open spec fn spec_arrow_delta(key: PickerKey, shift: bool, shift_move: i32) -> (i32, i32) {
    let step: i32 = if shift { shift_move } else { 1 };
    match key {
        PickerKey::Left => ((-step) as i32, 0),
        PickerKey::Right => (step, 0),
        PickerKey::Up => (0, (-step) as i32),
        PickerKey::Down => (0, step),
        _ => (0, 0),
    }
}

/// Cursor offset of one arrow key; see [`spec_arrow_delta`].
pub fn arrow_delta(key: PickerKey, shift: bool, shift_move: i32) -> (d: (i32, i32))
    requires
        shift_move > i32::MIN,
    ensures
        d == spec_arrow_delta(key, shift, shift_move),
{
    let step: i32 = if shift { shift_move } else { 1 };
    match key {
        PickerKey::Left => (-step, 0),
        PickerKey::Right => (step, 0),
        PickerKey::Up => (0, -step),
        PickerKey::Down => (0, step),
        _ => (0, 0),
    }
}

} // verus!

verus! {

/// In continue mode, a session that starts with no colour picked gets both colours from two
/// selections: the first stores the current colour and switches slot without ending, the
/// second stores the colour then under the cursor in the other slot and ends the session.
pub proof fn lemma_continue_mode_picks_both(s: PickerState, second: Rgb)
    requires
        s.continue_mode,
        !s.quit,
        s.fg_color is None,
        s.bg_color is None,
    ensures
        !s.after_select().quit,
        s.after_select().fg_mode == !s.fg_mode,
        ({
            let s2 = PickerState { color: second, ..s.after_select() }.after_select();
            &&& s2.quit
            &&& s2.fg_color == Some(if s.fg_mode { s.color } else { second })
            &&& s2.bg_color == Some(if s.fg_mode { second } else { s.color })
        }),
{
}

/// Outside continue mode, one selection ends the session with the colour under the cursor
/// in the slot of the current mode, the other slot untouched.
pub proof fn lemma_normal_pick_ends_session(s: PickerState)
    requires
        !s.continue_mode,
    ensures
        s.after_select().quit,
        s.fg_mode ==> s.after_select().fg_color == Some(s.color)
            && s.after_select().bg_color == s.bg_color,
        !s.fg_mode ==> s.after_select().bg_color == Some(s.color)
            && s.after_select().fg_color == s.fg_color,
{
}

/// Cancelling ends the session and hands back no colour at all.
pub proof fn lemma_cancel_returns_nothing(s: PickerState)
    ensures
        s.after_cancel().quit,
        s.after_cancel().spec_result().foreground is None,
        s.after_cancel().spec_result().background is None,
{
}

/// Every transition keeps the zoom between its bounds and the captured-pixel count odd and
/// between 9 and 21.
pub proof fn lemma_transitions_keep_bounds(
    s: PickerState,
    limits: ZoomLimits,
    shift: bool,
    up: bool,
    delta: int,
)
    requires
        s.wf(limits),
    ensures
        s.after_scroll_zoom(delta, limits).wf(limits),
        s.after_select().wf(limits),
        s.after_cancel().wf(limits),
        s.after_abort().wf(limits),
        s.after_confirm().wf(limits),
        s.after_toggle_continue().wf(limits),
        s.after_zoom_in(limits).wf(limits),
        s.after_zoom_out(limits).wf(limits),
        s.after_more_pixels().wf(limits),
        s.after_fewer_pixels().wf(limits),
        s.after_wheel(shift, up, limits).wf(limits),
{
}

/// Escape on X11 and on macOS cancels the selection: the session ends and no colour
/// comes back, even one picked earlier in continue mode.
pub proof fn lemma_escape_returns_nothing(
    s: PickerState,
    screen: &Screen,
    shift: bool,
    limits: ZoomLimits,
    shift_move: i32,
)
    ensures
        s.after_key_macos(PickerKey::Escape, shift, limits).0.quit,
        s.after_key_macos(PickerKey::Escape, shift, limits).0.spec_result().foreground is None,
        s.after_key_macos(PickerKey::Escape, shift, limits).0.spec_result().background is None,
        s.after_key_x11(screen, PickerKey::Escape, shift, limits, shift_move).0.quit,
        s.after_key_x11(screen, PickerKey::Escape, shift, limits, shift_move).0.spec_result().foreground is None,
        s.after_key_x11(screen, PickerKey::Escape, shift, limits, shift_move).0.spec_result().background is None,
{
}

/// Switching continue mode twice gives back the same state.
pub proof fn lemma_toggle_continue_twice(s: PickerState)
    ensures
        s.after_toggle_continue().after_toggle_continue() == s,
{
}

/// One step in and one step out give back the same magnification, when the step in did not
/// hit the upper bound; likewise for the captured-pixel count.
pub proof fn lemma_zoom_round_trip(s: PickerState, limits: ZoomLimits)
    requires
        s.wf(limits),
    ensures
        s.zoom + limits.step <= limits.max ==> s.after_zoom_in(limits).after_zoom_out(limits)
            == s,
        s.captured + CAPTURED_PIXELS_STEP <= CAPTURED_PIXELS_MAX
            ==> s.after_more_pixels().after_fewer_pixels() == s,
{
}

} // verus!

verus! {

/// `v` clamped into the `i32` range.
pub open spec fn clamp_i32(v: int) -> i32 {
    clamp(v, i32::MIN as int, i32::MAX as int) as i32
}

fn clamp_to_i32(v: i64) -> (r: i32)
    ensures
        r == clamp_i32(v as int),
{
    if v < i32::MIN as i64 {
        i32::MIN
    } else if v > i32::MAX as i64 {
        i32::MAX
    } else {
        v as i32
    }
}

impl PickerState {
    /// The cursor moved to `(x, y)` on an X11 screen: the position is clamped into the
    /// screen and the colour under it is read from the capture.
    pub open spec fn after_move_x11(self, screen: &Screen, x: int, y: int) -> PickerState {
        let cx = clamp(x, 0, screen.spec_width() - 1);
        let cy = clamp(y, 0, screen.spec_height() - 1);
        PickerState {
            cursor_x: cx as i32,
            cursor_y: cy as i32,
            color: screen.spec_pixel(cx, cy),
            ..self
        }
    }

    /// The cursor moved to `(x, y)` on Windows: the position is taken as is and the colour
    /// under it is read from the desktop capture.
    pub open spec fn after_update_cursor_pos(self, capture: &BgraCapture, x: i32, y: i32) -> PickerState {
        PickerState {
            cursor_x: x,
            cursor_y: y,
            color: capture.spec_pixel_color(x as int, y as int),
            ..self
        }
    }

    /// The zoom keys: `I` zooms in (with Shift: more pixels), `O` zooms out (with Shift:
    /// fewer pixels).
    pub open spec fn after_zoom_key(self, zoom_in: bool, shift: bool, limits: ZoomLimits) -> PickerState {
        self.after_wheel(shift, zoom_in, limits)
    }

    /// A key pressed in the X11 overlay, and what the overlay must do next.
    ///
    /// Escape cancels; Return, keypad Enter and Space select; `C` toggles continue mode;
    /// `I` and `O` change the zoom (with Shift, the captured-pixel count); an arrow moves the
    /// cursor one pixel (`shift_move` with Shift), clamped into the screen, reads the colour
    /// there and asks for the pointer to be moved along. Every key but Escape and unknown
    /// keys asks for a redraw.
    pub open spec fn after_key_x11(
        self,
        screen: &Screen,
        key: PickerKey,
        shift: bool,
        limits: ZoomLimits,
        shift_move: i32,
    ) -> (PickerState, KeyOutcome) {
        match key {
            PickerKey::Escape => (self.after_cancel(), KeyOutcome { redraw: false, warp_to: None }),
            PickerKey::Enter => (self.after_select(), KeyOutcome { redraw: true, warp_to: None }),
            PickerKey::ToggleContinue => (
                self.after_toggle_continue(),
                KeyOutcome { redraw: true, warp_to: None },
            ),
            PickerKey::ZoomIn => (
                self.after_zoom_key(true, shift, limits),
                KeyOutcome { redraw: true, warp_to: None },
            ),
            PickerKey::ZoomOut => (
                self.after_zoom_key(false, shift, limits),
                KeyOutcome { redraw: true, warp_to: None },
            ),
            PickerKey::Other => (self, KeyOutcome { redraw: false, warp_to: None }),
            _ => {
                let d = spec_arrow_delta(key, shift, shift_move);
                let moved = self.after_move_x11(
                    screen,
                    self.cursor_x + d.0,
                    self.cursor_y + d.1,
                );
                (moved, KeyOutcome { redraw: true, warp_to: Some((moved.cursor_x, moved.cursor_y)) })
            },
        }
    }

    /// A key pressed in the Windows overlay. Escape ends the session keeping what was
    /// picked; Return and Space select; `C`, `I` and `O` as on X11. An arrow returns where
    /// the system pointer, now at `pointer`, must go: one pixel (`shift_move` with Shift)
    /// away, kept within the `i32` range; the state is then updated with
    /// [`PickerState::update_cursor_pos`].
    pub open spec fn after_key_windows(
        self,
        key: PickerKey,
        shift: bool,
        limits: ZoomLimits,
        shift_move: i32,
        pointer: (i32, i32),
    ) -> (PickerState, Option<(i32, i32)>) {
        match key {
            PickerKey::Escape => (self.after_abort(), None),
            PickerKey::Enter => (self.after_select(), None),
            PickerKey::ToggleContinue => (self.after_toggle_continue(), None),
            PickerKey::ZoomIn => (self.after_zoom_key(true, shift, limits), None),
            PickerKey::ZoomOut => (self.after_zoom_key(false, shift, limits), None),
            PickerKey::Other => (self, None),
            _ => {
                let d = spec_arrow_delta(key, shift, shift_move);
                (self, Some((clamp_i32(pointer.0 + d.0), clamp_i32(pointer.1 + d.1))))
            },
        }
    }

    /// A key pressed in the macOS overlay, arrows aside (the overlay moves the pointer in
    /// points itself). Escape cancels the selection: no colour comes back; Return stores
    /// the current colour and ends the session; `C`, `I` and `O` as elsewhere. Returns
    /// whether the view must be redrawn.
    pub open spec fn after_key_macos(
        self,
        key: PickerKey,
        shift: bool,
        limits: ZoomLimits,
    ) -> (PickerState, bool) {
        match key {
            PickerKey::Escape => (self.after_cancel(), false),
            PickerKey::Enter => (self.after_confirm(), false),
            PickerKey::ToggleContinue => (self.after_toggle_continue(), true),
            PickerKey::ZoomIn => (self.after_zoom_key(true, shift, limits), true),
            PickerKey::ZoomOut => (self.after_zoom_key(false, shift, limits), true),
            _ => (self, false),
        }
    }

    /// Moves the cursor to `(x, y)` on an X11 screen; see [`PickerState::after_move_x11`].
    pub fn move_to(&mut self, screen: &Screen, x: i32, y: i32)
        ensures
            *final(self) == old(self).after_move_x11(screen, x as int, y as int),
    {
        let w = screen.width();
        let h = screen.height();
        let cx = if x < 0 { 0 } else if x > w - 1 { w - 1 } else { x };
        let cy = if y < 0 { 0 } else if y > h - 1 { h - 1 } else { y };
        self.cursor_x = cx;
        self.cursor_y = cy;
        self.color = screen.pixel(cx, cy);
    }

    /// Moves the cursor to `(x, y)` on Windows and reads the colour there.
    pub fn update_cursor_pos(&mut self, capture: &BgraCapture, x: i32, y: i32)
        ensures
            *final(self) == old(self).after_update_cursor_pos(capture, x, y),
    {
        let color = capture.get_pixel_color(x, y);
        self.cursor_x = x;
        self.cursor_y = y;
        self.color = color;
    }

    fn zoom_key(&mut self, zoom_in: bool, shift: bool, limits: ZoomLimits)
        requires
            old(self).wf(limits),
        ensures
            *final(self) == old(self).after_zoom_key(zoom_in, shift, limits),
            final(self).wf(limits),
    {
        self.wheel(shift, zoom_in, limits);
    }

    /// Handles a key in the X11 overlay; see [`PickerState::after_key_x11`].
    pub fn handle_key(
        &mut self,
        screen: &Screen,
        key: PickerKey,
        shift: bool,
        limits: ZoomLimits,
        shift_move: i32,
    ) -> (out: KeyOutcome)
        requires
            old(self).wf(limits),
            shift_move > i32::MIN,
        ensures
            (*final(self), out) == old(self).after_key_x11(screen, key, shift, limits, shift_move),
            final(self).wf(limits),
    {
        match key {
            PickerKey::Escape => {
                self.cancel();
                KeyOutcome { redraw: false, warp_to: None }
            },
            PickerKey::Enter => {
                self.select_color();
                KeyOutcome { redraw: true, warp_to: None }
            },
            PickerKey::ToggleContinue => {
                self.toggle_continue();
                KeyOutcome { redraw: true, warp_to: None }
            },
            PickerKey::ZoomIn => {
                self.zoom_key(true, shift, limits);
                KeyOutcome { redraw: true, warp_to: None }
            },
            PickerKey::ZoomOut => {
                self.zoom_key(false, shift, limits);
                KeyOutcome { redraw: true, warp_to: None }
            },
            PickerKey::Other => KeyOutcome { redraw: false, warp_to: None },
            _ => {
                let (dx, dy) = arrow_delta(key, shift, shift_move);
                let x = clamp_to_i32(self.cursor_x as i64 + dx as i64);
                let y = clamp_to_i32(self.cursor_y as i64 + dy as i64);
                let w = screen.width();
                let h = screen.height();
                let ghost tx = self.cursor_x + dx;
                let ghost ty = self.cursor_y + dy;
                assert(clamp(x as int, 0, w - 1) == clamp(tx, 0, w - 1));
                assert(clamp(y as int, 0, h - 1) == clamp(ty, 0, h - 1));
                self.move_to(screen, x, y);
                KeyOutcome { redraw: true, warp_to: Some((self.cursor_x, self.cursor_y)) }
            },
        }
    }

    /// Handles a key in the Windows overlay; see [`PickerState::after_key_windows`].
    pub fn handle_key_windows(
        &mut self,
        key: PickerKey,
        shift: bool,
        limits: ZoomLimits,
        shift_move: i32,
        pointer: (i32, i32),
    ) -> (target: Option<(i32, i32)>)
        requires
            old(self).wf(limits),
            shift_move > i32::MIN,
        ensures
            (*final(self), target) == old(self).after_key_windows(
                key,
                shift,
                limits,
                shift_move,
                pointer,
            ),
            final(self).wf(limits),
    {
        match key {
            PickerKey::Escape => {
                self.abort();
                None
            },
            PickerKey::Enter => {
                self.select_color();
                None
            },
            PickerKey::ToggleContinue => {
                self.toggle_continue();
                None
            },
            PickerKey::ZoomIn => {
                self.zoom_key(true, shift, limits);
                None
            },
            PickerKey::ZoomOut => {
                self.zoom_key(false, shift, limits);
                None
            },
            PickerKey::Other => None,
            _ => {
                let (dx, dy) = arrow_delta(key, shift, shift_move);
                Some(
                    (
                        clamp_to_i32(pointer.0 as i64 + dx as i64),
                        clamp_to_i32(pointer.1 as i64 + dy as i64),
                    ),
                )
            },
        }
    }

    /// Handles a key in the macOS overlay; see [`PickerState::after_key_macos`].
    pub fn handle_key_macos(&mut self, key: PickerKey, shift: bool, limits: ZoomLimits) -> (redraw:
        bool)
        requires
            old(self).wf(limits),
        ensures
            (*final(self), redraw) == old(self).after_key_macos(key, shift, limits),
            final(self).wf(limits),
    {
        match key {
            PickerKey::Escape => {
                self.cancel();
                false
            },
            PickerKey::Enter => {
                self.confirm();
                false
            },
            PickerKey::ToggleContinue => {
                self.toggle_continue();
                true
            },
            PickerKey::ZoomIn => {
                self.zoom_key(true, shift, limits);
                true
            },
            PickerKey::ZoomOut => {
                self.zoom_key(false, shift, limits);
                true
            },
            _ => false,
        }
    }
}

/// On X11 the cursor never leaves the screen: after any key the cursor lies inside the
/// screen whenever it did before, and an arrow key asks for the pointer to be moved exactly
/// to the new cursor.
pub proof fn lemma_x11_cursor_stays_on_screen(
    s: PickerState,
    screen: &Screen,
    key: PickerKey,
    shift: bool,
    limits: ZoomLimits,
    shift_move: i32,
)
    requires
        screen.layout_ok(),
        0 <= s.cursor_x < screen.spec_width(),
        0 <= s.cursor_y < screen.spec_height(),
    ensures
        ({
            let (t, out) = s.after_key_x11(screen, key, shift, limits, shift_move);
            &&& 0 <= t.cursor_x < screen.spec_width()
            &&& 0 <= t.cursor_y < screen.spec_height()
            &&& (out.warp_to matches Some(p) ==> p == (t.cursor_x, t.cursor_y))
        }),
{
}

} // verus!

verus! {

impl PickerState {
    /// A mouse button pressed in the X11 overlay. Button 1 selects, button 3 cancels,
    /// buttons 4 and 5 are a wheel notch up and down; other buttons do nothing. When the
    /// press ends the session, the overlay must wait for that button's release. Returns
    /// whether the magnifier must be redrawn.
    pub open spec fn after_button_x11(self, button: u8, shift: bool, limits: ZoomLimits) -> (PickerState, bool) {
        let (t, redraw) = if button == 1 {
            (self.after_select(), true)
        } else if button == 3 {
            (self.after_cancel(), false)
        } else if button == 4 {
            (self.after_wheel(shift, true, limits), true)
        } else if button == 5 {
            (self.after_wheel(shift, false, limits), true)
        } else {
            (self, false)
        };
        if t.quit {
            (PickerState { pending_release: Some(button), ..t }, redraw)
        } else {
            (t, redraw)
        }
    }

    /// Handles a mouse button press in the X11 overlay; see
    /// [`PickerState::after_button_x11`].
    pub fn handle_button_x11(&mut self, button: u8, shift: bool, limits: ZoomLimits) -> (redraw: bool)
        requires
            old(self).wf(limits),
        ensures
            (*final(self), redraw) == old(self).after_button_x11(button, shift, limits),
            final(self).wf(limits),
    {
        let redraw = if button == 1 {
            self.select_color();
            true
        } else if button == 3 {
            self.cancel();
            false
        } else if button == 4 {
            self.wheel(shift, true, limits);
            true
        } else if button == 5 {
            self.wheel(shift, false, limits);
            true
        } else {
            false
        };
        if self.quit {
            self.pending_release = Some(button);
        }
        redraw
    }
}


/// A right click (button 3) in the X11 overlay cancels: whatever the state, the session
/// ends, no colour at all comes back (not even one picked earlier in continue mode), no
/// redraw is asked, and the overlay waits for that button's release.
pub proof fn lemma_right_click_returns_nothing(s: PickerState, shift: bool, limits: ZoomLimits)
    ensures
        ({
            let (t, redraw) = s.after_button_x11(3, shift, limits);
            &&& t.quit
            &&& t.spec_result().foreground is None
            &&& t.spec_result().background is None
            &&& t.spec_result().continue_mode == s.continue_mode
            &&& !redraw
            &&& t.pending_release == Some(3u8)
        }),
{
}

/// A left click (button 1) in the X11 overlay outside continue mode ends the session with
/// the colour under the cursor in the slot of the current mode and the other slot as it
/// was; in continue mode with the other slot still empty, it stores the colour and switches
/// slot without ending.
pub proof fn lemma_left_click_picks(s: PickerState, shift: bool, limits: ZoomLimits)
    ensures
        ({
            let (t, redraw) = s.after_button_x11(1, shift, limits);
            &&& redraw
            &&& (!s.continue_mode ==> {
                &&& t.quit
                &&& t.pending_release == Some(1u8)
                &&& (if s.fg_mode { t.fg_color == Some(s.color) && t.bg_color == s.bg_color }
                     else { t.bg_color == Some(s.color) && t.fg_color == s.fg_color })
            })
            &&& (s.continue_mode && !s.quit && (if s.fg_mode { s.bg_color is None } else { s.fg_color is None }) ==> {
                &&& !t.quit
                &&& t.fg_mode == !s.fg_mode
                &&& (if s.fg_mode { t.fg_color == Some(s.color) } else { t.bg_color == Some(s.color) })
            })
        }),
{
}

} // verus!
