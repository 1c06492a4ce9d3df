//! The window controller as a state machine.
//!
//! `WindowState` models the one main window as the toolkit holds it: its
//! visibility, focus, always-on-top flag, position and size, together with
//! the one piece of state this backend adds — an outstanding deferred
//! re-enable of always-on-top. Every command the shell exposes is a
//! transition on this model.
//!
//! The toolkit calls a transition stands for can fail at runtime; each
//! transition therefore takes the outcome of every toolkit call it would
//! issue as a boolean argument and is verified for every combination of
//! outcomes. A failed call leaves the modeled state as it was; the shell
//! around the library performs the real calls and hands the outcomes in.

use vstd::prelude::*;

use crate::errors::WindowError;

verus! {

/// Logical width every resize request pins the window to.
pub const LOGICAL_WIDTH: u32 = 700;

/// Physical offset from the top of the screen at which the window is kept.
pub const TOP_OFFSET: i32 = 54;

/// Read-only snapshot of one display: its physical size and whether the
/// system designates it as the primary display.
#[derive(Clone, Copy, Debug, PartialEq, Eq, Structural)]
pub struct MonitorInfo {
    pub width: u32,
    pub height: u32,
    pub is_primary: bool,
}

impl MonitorInfo {
    /// A display small enough that positioning arithmetic stays in `i32`,
    /// the coordinate type of the windowing layer.
    pub open spec fn wf(self) -> bool {
        self.width <= i32::MAX && self.height <= i32::MAX
    }
}

/// The horizontal or vertical coordinate that centers a window of extent
/// `size` on a screen of extent `extent`, with the truncating division the
/// windowing layer applies: the quotient is rounded toward zero, also when
/// the window is larger than the screen and the coordinate is negative.
pub open spec fn center_offset(extent: int, size: int) -> int {
    if extent >= size {
        (extent - size) / 2
    } else {
        -((size - extent) / 2)
    }
}

/// Computes `center_offset` on machine integers.
pub fn center_coord(extent: u32, size: u32) -> (c: i32)
    requires
        extent <= i32::MAX,
        size <= i32::MAX,
    ensures
        c == center_offset(extent as int, size as int),
{
    if extent >= size {
        ((extent - size) / 2) as i32
    } else {
        let d: u32 = (size - extent) / 2;
        -(d as i32)
    }
}

/// The main window's modeled state.
#[derive(Clone, Copy, Debug, PartialEq, Eq, Structural)]
pub struct WindowState {
    /// Whether the window is shown.
    pub visible: bool,
    /// The always-on-top flag.
    pub always_on_top: bool,
    /// Whether the window holds keyboard focus.
    pub focused: bool,
    /// A deferred re-enable of always-on-top is outstanding.
    pub restore_pending: bool,
    /// Instant, in milliseconds, at which the outstanding re-enable fires;
    /// meaningful only while `restore_pending` holds.
    pub restore_deadline: u64,
    /// Horizontal position of the frame's top-left corner, physical pixels.
    pub x: i32,
    /// Vertical position of the frame's top-left corner, physical pixels.
    pub y: i32,
    /// Inner width in logical, DPI-independent units.
    pub logical_width: u32,
    /// Inner height in logical, DPI-independent units.
    pub logical_height: u32,
    /// Frame-inclusive width in physical pixels.
    pub outer_width: u32,
    /// Frame-inclusive height in physical pixels.
    pub outer_height: u32,
}

impl WindowState {
    /// A window small enough that positioning arithmetic stays in `i32`.
    pub open spec fn wf(self) -> bool {
        self.outer_width <= i32::MAX && self.outer_height <= i32::MAX
    }

    /// The state after a successful move to `(x, y)`.
    pub open spec fn moved_to(self, x: i32, y: i32) -> WindowState {
        WindowState { x: x, y: y, ..self }
    }

    /// The state after a successful move to the top center of display `m`
    /// with vertical offset `y_offset`.
    pub open spec fn top_centered(self, m: MonitorInfo, y_offset: i32) -> WindowState {
        self.moved_to(center_offset(m.width as int, self.outer_width as int) as i32, y_offset)
    }

    /// The state after a successful move to the exact center of display `m`.
    pub open spec fn fully_centered(self, m: MonitorInfo) -> WindowState {
        self.moved_to(
            center_offset(m.width as int, self.outer_width as int) as i32,
            center_offset(m.height as int, self.outer_height as int) as i32,
        )
    }

    /// The state after a successful resize to the fixed logical width and
    /// the requested logical height.
    pub open spec fn resized(self, height: u32) -> WindowState {
        WindowState { logical_width: LOGICAL_WIDTH, logical_height: height, ..self }
    }

    /// The state after a successful change of the always-on-top flag. An
    /// outstanding deferred re-enable is deliberately not cancelled — there
    /// is no cancellation primitive — so a stale restore may later override
    /// this write.
    pub open spec fn with_always_on_top(self, v: bool) -> WindowState {
        WindowState { always_on_top: v, ..self }
    }

    /// The state after the window gained focus.
    pub open spec fn with_focus(self) -> WindowState {
        WindowState { focused: true, ..self }
    }

    /// The state after the window was hidden.
    pub open spec fn hidden(self) -> WindowState {
        WindowState { visible: false, ..self }
    }

    /// The state after the window was shown (focus not yet requested).
    pub open spec fn shown(self) -> WindowState {
        WindowState { visible: true, ..self }
    }

    /// The state after one successful visibility toggle: a visible window
    /// is hidden; a hidden window is shown and focused.
    pub open spec fn toggled(self) -> WindowState {
        if self.visible {
            self.hidden()
        } else {
            self.shown().with_focus()
        }
    }

    /// The state right after always-on-top was suspended: the flag is
    /// cleared and a re-enable is scheduled for `deadline`.
    pub open spec fn suspended(self, deadline: u64) -> WindowState {
        WindowState {
            always_on_top: false,
            restore_pending: true,
            restore_deadline: deadline,
            ..self
        }
    }

    /// The state after the deferred re-enable ran and succeeded.
    pub open spec fn restored(self) -> WindowState {
        WindowState { always_on_top: true, restore_pending: false, ..self }
    }

    /// The state after the deferred re-enable ran and its single toolkit
    /// call failed: the attempt is spent either way.
    pub open spec fn restore_abandoned(self) -> WindowState {
        WindowState { restore_pending: false, ..self }
    }
}

impl WindowState {
    /// Moves the window to the given physical position; `move_ok` is the
    /// outcome of the toolkit's move call.
    pub fn position_window_at(&mut self, x: i32, y: i32, move_ok: bool) -> (r: Result<
        (),
        WindowError,
    >)
        ensures
            move_ok ==> r is Ok && *final(self) == old(self).moved_to(x, y),
            !move_ok ==> r == Err::<(), WindowError>(WindowError::PositionError) && *final(self)
                == *old(self),
    {
        if move_ok {
            self.x = x;
            self.y = y;
            Ok(())
        } else {
            Err(WindowError::PositionError)
        }
    }

    /// Moves the window to the top center of the primary display, `y_offset`
    /// physical pixels below its upper edge: horizontally the window's outer
    /// frame is centered on the display's width. When no primary display is
    /// reported the call deliberately does nothing and still succeeds; only
    /// a failing move call is an error.
    pub fn position_window_top_center(
        &mut self,
        monitor: Option<MonitorInfo>,
        y_offset: i32,
        move_ok: bool,
    ) -> (r: Result<(), WindowError>)
        requires
            old(self).wf(),
            monitor matches Some(m) ==> m.wf(),
        ensures
            monitor is None ==> r is Ok && *final(self) == *old(self),
            (monitor is Some && move_ok) ==> r is Ok && *final(self) == old(self).top_centered(monitor->Some_0, y_offset),
            (monitor is Some && !move_ok) ==> r == Err::<(), WindowError>(
                WindowError::PositionError,
            ) && *final(self) == *old(self),
    {
        match monitor {
            None => Ok(()),
            Some(m) => {
                let cx = center_coord(m.width, self.outer_width);
                self.position_window_at(cx, y_offset, move_ok)
            },
        }
    }

    /// Moves the window to the exact center of the primary display, both
    /// axes; a no-op success when no primary display is reported.
    pub fn center_window_completely(&mut self, monitor: Option<MonitorInfo>, move_ok: bool) -> (r:
        Result<(), WindowError>)
        requires
            old(self).wf(),
            monitor matches Some(m) ==> m.wf(),
        ensures
            monitor is None ==> r is Ok && *final(self) == *old(self),
            (monitor is Some && move_ok) ==> r is Ok && *final(self) == old(self).fully_centered(monitor->Some_0),
            (monitor is Some && !move_ok) ==> r == Err::<(), WindowError>(
                WindowError::PositionError,
            ) && *final(self) == *old(self),
    {
        match monitor {
            None => Ok(()),
            Some(m) => {
                let cx = center_coord(m.width, self.outer_width);
                let cy = center_coord(m.height, self.outer_height);
                self.position_window_at(cx, cy, move_ok)
            },
        }
    }

    /// Resizes the window to the fixed logical width and the requested
    /// logical height, then re-centers it at the top of the primary display
    /// with the standard offset. A failing resize is an error; a failing
    /// re-position after a successful resize is only logged by the shell,
    /// not surfaced, since the resize — the primary intent — already took
    /// effect. `resize_ok` and `move_ok` are the two toolkit outcomes.
    pub fn set_window_height(
        &mut self,
        height: u32,
        resize_ok: bool,
        monitor: Option<MonitorInfo>,
        move_ok: bool,
    ) -> (r: Result<(), WindowError>)
        requires
            old(self).wf(),
            monitor matches Some(m) ==> m.wf(),
        ensures
            !resize_ok ==> r == Err::<(), WindowError>(WindowError::ResizeError) && *final(self)
                == *old(self),
            resize_ok ==> r is Ok && final(self).logical_width == LOGICAL_WIDTH && final(self).logical_height == height,
            (resize_ok && monitor is Some && move_ok) ==> *final(self) == old(self).resized(
                height,
            ).top_centered(monitor->Some_0, TOP_OFFSET),
            (resize_ok && (monitor is None || !move_ok)) ==> *final(self) == old(self).resized(
                height,
            ),
    {
        if !resize_ok {
            return Err(WindowError::ResizeError);
        }
        self.logical_width = LOGICAL_WIDTH;
        self.logical_height = height;
        let reposition = self.position_window_top_center(monitor, TOP_OFFSET, move_ok);
        // A reposition failure is deliberately swallowed here; the shell
        // logs it.
        let _ = reposition;
        Ok(())
    }

    /// Sets or clears the always-on-top flag. An outstanding deferred
    /// re-enable stays scheduled: there is no cancellation, so a stale
    /// restore may later override this write (last write wins).
    pub fn set_always_on_top(&mut self, always_on_top: bool, set_ok: bool) -> (r: Result<
        (),
        WindowError,
    >)
        ensures
            set_ok ==> r is Ok && *final(self) == old(self).with_always_on_top(always_on_top),
            !set_ok ==> r == Err::<(), WindowError>(WindowError::TopmostError) && *final(self)
                == *old(self),
    {
        if set_ok {
            self.always_on_top = always_on_top;
            Ok(())
        } else {
            Err(WindowError::TopmostError)
        }
    }

    /// Requests focus for the window.
    pub fn bring_to_front(&mut self, focus_ok: bool) -> (r: Result<(), WindowError>)
        ensures
            focus_ok ==> r is Ok && *final(self) == old(self).with_focus(),
            !focus_ok ==> r == Err::<(), WindowError>(WindowError::FocusError) && *final(self)
                == *old(self),
    {
        if focus_ok {
            self.focused = true;
            Ok(())
        } else {
            Err(WindowError::FocusError)
        }
    }

    /// Directional focus request. Asking for focus requests it from the
    /// toolkit and can fail; asking to unfocus is a guaranteed no-op
    /// success, whatever the window's prior state, because the toolkit
    /// exposes no programmatic unfocus primitive.
    pub fn set_window_focus(&mut self, focused: bool, focus_ok: bool) -> (r: Result<
        (),
        WindowError,
    >)
        ensures
            !focused ==> r is Ok && *final(self) == *old(self),
            (focused && focus_ok) ==> r is Ok && *final(self) == old(self).with_focus(),
            (focused && !focus_ok) ==> r == Err::<(), WindowError>(WindowError::FocusError)
                && *final(self) == *old(self),
    {
        if focused {
            self.bring_to_front(focus_ok)
        } else {
            Ok(())
        }
    }

    /// Clears always-on-top now and schedules its re-enable
    /// `duration_ms` milliseconds from `now`. Only the immediate clear can
    /// fail; the deferred re-enable is fired later by `fire_pending_restore`.
    pub fn temporary_disable_always_on_top(
        &mut self,
        now: u64,
        duration_ms: u64,
        disable_ok: bool,
    ) -> (r: Result<(), WindowError>)
        requires
            now + duration_ms <= u64::MAX,
        ensures
            disable_ok ==> r is Ok && *final(self) == old(self).suspended((now + duration_ms) as u64)
                && !final(self).always_on_top,
            !disable_ok ==> r == Err::<(), WindowError>(WindowError::TopmostError) && *final(self)
                == *old(self),
    {
        if !disable_ok {
            return Err(WindowError::TopmostError);
        }
        self.always_on_top = false;
        self.restore_pending = true;
        self.restore_deadline = now + duration_ms;
        Ok(())
    }

    /// The deferred action scheduled by `temporary_disable_always_on_top`:
    /// once its deadline has passed it re-enables always-on-top with a
    /// single best-effort call, ignoring failure — by the time it runs the
    /// window may legitimately be gone or changed. It runs even when an
    /// explicit always-on-top write happened in the interim: there is no
    /// cancellation, so the stale restore overrides it.
    pub fn fire_pending_restore(&mut self, now: u64, restore_ok: bool)
        requires
            old(self).restore_pending,
            now >= old(self).restore_deadline,
        ensures
            restore_ok ==> *final(self) == old(self).restored() && final(self).always_on_top,
            !restore_ok ==> *final(self) == old(self).restore_abandoned(),
    {
        self.restore_pending = false;
        if restore_ok {
            self.always_on_top = true;
        }
    }

    /// Toggles visibility: a visible window is hidden; a hidden window is
    /// shown and then focused, so that a restored window is immediately
    /// usable. The shell first queries visibility, which itself can fail;
    /// `query_ok`, `hide_ok`, `show_ok` and `focus_ok` are the outcomes of
    /// the calls the toggle would issue. A focus failure after a
    /// successful show is reported although the window did get shown.
    pub fn toggle_window_visibility(
        &mut self,
        query_ok: bool,
        hide_ok: bool,
        show_ok: bool,
        focus_ok: bool,
    ) -> (r: Result<(), WindowError>)
        ensures
            !query_ok ==> r == Err::<(), WindowError>(WindowError::VisibilityQueryError) && *final(self) == *old(self),
            (query_ok && old(self).visible && hide_ok) ==> r is Ok && *final(self) == old(self).toggled(),
            (query_ok && old(self).visible && !hide_ok) ==> r == Err::<(), WindowError>(
                WindowError::VisibilityError,
            ) && *final(self) == *old(self),
            (query_ok && !old(self).visible && !show_ok) ==> r == Err::<(), WindowError>(
                WindowError::ShowError,
            ) && *final(self) == *old(self),
            (query_ok && !old(self).visible && show_ok && !focus_ok) ==> r == Err::<
                (),
                WindowError,
            >(WindowError::FocusError) && *final(self) == old(self).shown(),
            (query_ok && !old(self).visible && show_ok && focus_ok) ==> r is Ok && *final(self)
                == old(self).toggled(),
    {
        if !query_ok {
            return Err(WindowError::VisibilityQueryError);
        }
        if self.visible {
            if hide_ok {
                self.visible = false;
                Ok(())
            } else {
                Err(WindowError::VisibilityError)
            }
        } else {
            if !show_ok {
                return Err(WindowError::ShowError);
            }
            self.visible = true;
            self.bring_to_front(focus_ok)
        }
    }

    /// Keeps the window's standing behavior: re-asserts always-on-top,
    /// then brings it to the front.
    pub fn maintain_window_behavior(&mut self, set_ok: bool, focus_ok: bool) -> (r: Result<
        (),
        WindowError,
    >)
        ensures
            !set_ok ==> r == Err::<(), WindowError>(WindowError::TopmostError) && *final(self)
                == *old(self),
            (set_ok && !focus_ok) ==> r == Err::<(), WindowError>(WindowError::FocusError)
                && *final(self) == old(self).with_always_on_top(true),
            (set_ok && focus_ok) ==> r is Ok && *final(self) == old(self).with_always_on_top(
                true,
            ).with_focus(),
    {
        let set = self.set_always_on_top(true, set_ok);
        if set.is_err() {
            return Err(WindowError::TopmostError);
        }
        self.bring_to_front(focus_ok)
    }

    /// First-time setup of the located main window: place it at the top
    /// center with the standard offset, make it always-on-top, and give it
    /// focus. Each step's failure aborts the setup and is surfaced.
    pub fn setup_main_window(
        &mut self,
        monitor: Option<MonitorInfo>,
        move_ok: bool,
        set_ok: bool,
        focus_ok: bool,
    ) -> (r: Result<(), WindowError>)
        requires
            old(self).wf(),
            monitor matches Some(m) ==> m.wf(),
        ensures
            (monitor is Some && !move_ok) ==> r == Err::<(), WindowError>(
                WindowError::PositionError,
            ) && *final(self) == *old(self),
            (monitor is Some && move_ok && !set_ok) ==> r == Err::<(), WindowError>(
                WindowError::TopmostError,
            ) && *final(self) == old(self).top_centered(monitor->Some_0, TOP_OFFSET),
            (monitor is None && !set_ok) ==> r == Err::<(), WindowError>(WindowError::TopmostError)
                && *final(self) == *old(self),
            (monitor is Some && move_ok && set_ok && !focus_ok) ==> r == Err::<
                (),
                WindowError,
            >(WindowError::FocusError) && *final(self) == old(self).top_centered(
                monitor->Some_0,
                TOP_OFFSET,
            ).with_always_on_top(true),
            (monitor is None && set_ok && !focus_ok) ==> r == Err::<(), WindowError>(
                WindowError::FocusError,
            ) && *final(self) == old(self).with_always_on_top(true),
            (monitor is Some && move_ok && set_ok && focus_ok) ==> r is Ok && *final(self)
                == old(self).top_centered(monitor->Some_0, TOP_OFFSET).with_always_on_top(true).with_focus(),
            (monitor is None && set_ok && focus_ok) ==> r is Ok && *final(self) == old(self).with_always_on_top(true).with_focus(),
    {
        let positioned = self.position_window_top_center(monitor, TOP_OFFSET, move_ok);
        if positioned.is_err() {
            return Err(WindowError::PositionError);
        }
        let set = self.set_always_on_top(true, set_ok);
        if set.is_err() {
            return Err(WindowError::TopmostError);
        }
        self.bring_to_front(focus_ok)
    }
}

/// Law: a resize always yields the fixed logical width and exactly the
/// requested logical height, whatever the window held before.
pub proof fn lemma_resize_dimensions(s: WindowState, height: u32)
    ensures
        s.resized(height).logical_width == LOGICAL_WIDTH,
        s.resized(height).logical_height == height,
{
}

/// Law: positioning at the top center leaves the window's top edge exactly
/// at the requested offset, and moves nothing but the position.
pub proof fn lemma_top_center_offset(s: WindowState, m: MonitorInfo, y_offset: i32)
    requires
        s.wf(),
        m.wf(),
    ensures
        s.top_centered(m, y_offset).y == y_offset,
        s.top_centered(m, y_offset).x == center_offset(m.width as int, s.outer_width as int),
        s.top_centered(m, y_offset).visible == s.visible,
        s.top_centered(m, y_offset).always_on_top == s.always_on_top,
        s.top_centered(m, y_offset).logical_width == s.logical_width,
        s.top_centered(m, y_offset).logical_height == s.logical_height,
{
}

/// Law: toggling visibility is an involution on visibility — two
/// successful toggles restore the original visibility — and when the
/// second toggle is the one that shows the window, it leaves it focused.
pub proof fn lemma_toggle_involution(s: WindowState)
    ensures
        s.toggled().toggled().visible == s.visible,
        s.visible ==> s.toggled().toggled().focused,
        !s.visible ==> s.toggled().focused,
{
}

/// Law: suspending always-on-top clears the flag at once; once the
/// deferred re-enable fires successfully the flag holds again. The
/// deferred re-enable is not cancellable, so it sets the flag even when an
/// explicit write changed it in the interim — the acknowledged race of the
/// missing cancellation primitive.
pub proof fn lemma_suspend_then_restore(s: WindowState, deadline: u64, interim: bool)
    ensures
        !s.suspended(deadline).always_on_top,
        s.suspended(deadline).restore_pending,
        s.suspended(deadline).restored().always_on_top,
        s.suspended(deadline).with_always_on_top(interim).restored().always_on_top,
        s.suspended(deadline).restored().visible == s.visible,
{
}

} // verus!

